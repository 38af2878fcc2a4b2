//! The state of the recorder and everything that changes it.
use vstd::prelude::*;

use crate::capture::{
    CaptureAction, CaptureCycle, CaptureEvent, CapturePhase, ClipJob, StepView, capture_step,
    clip_stage_step, rest, screenshot_stage_step,
};
use crate::config::{
    AppConfig, ConfigView, Key, MAX_REPLAY_SECS, MIN_REPLAY_SECS, default_config,
    default_is_in_range, is_offered_fps, offered_fps, proper_target,
};
use crate::detect::{
    all_texts_ascii, ascii_detected_game, detected_game, find_game, optional_text,
};
use crate::encode::texts;
use crate::gallery::{ItemView, LibraryItem, arrange, item_views, listing};
use crate::quality::VideoQuality;
use crate::replay::{FrameView, ReplayBuffer};
use crate::text::{decimal, decimal_string, trim, trimmed, trimming_is_idempotent};

verus! {

/// The tab that the window shows.
#[derive(Clone, Copy, Debug, PartialEq, Eq, Structural)]
pub enum ActiveTab {
    Settings,
    Library,
}

/// The recorder's state.
pub struct LightSnipApp {
    config: AppConfig,
    is_recording: bool,
    game_detected: bool,
    detected_game_name: String,
    buffer: ReplayBuffer,
    trigger_save_clip: bool,
    trigger_screenshot: bool,
    new_game_input: String,
    active_tab: ActiveTab,
    library_items: Vec<LibraryItem>,
}

/// What a [`LightSnipApp`] holds.
#[verifier::ext_equal]
pub struct AppView {
    pub config: ConfigView,
    /// Frames are captured into the replay buffer.
    pub is_recording: bool,
    /// A game was seen at the last look at the processes.
    pub game_detected: bool,
    /// The name of the process that started the automatic recording; empty without one.
    pub detected_game_name: Seq<char>,
    /// The replay buffer, oldest frame first.
    pub buffer: Seq<FrameView>,
    /// A clip was asked for and not exported yet.
    pub trigger_save_clip: bool,
    /// A screenshot was asked for and not taken yet.
    pub trigger_screenshot: bool,
    /// The text in the field for a further game.
    pub new_game_input: Seq<char>,
    pub active_tab: ActiveTab,
    /// The captures, as the library lists them.
    pub library_items: Seq<ItemView>,
}

impl View for LightSnipApp {
    type V = AppView;

    closed spec fn view(&self) -> AppView {
        AppView {
            config: self.config@,
            is_recording: self.is_recording,
            game_detected: self.game_detected,
            detected_game_name: self.detected_game_name@,
            buffer: self.buffer@,
            trigger_save_clip: self.trigger_save_clip,
            trigger_screenshot: self.trigger_screenshot,
            new_game_input: self.new_game_input@,
            active_tab: self.active_tab,
            library_items: item_views(self.library_items@),
        }
    }
}

impl AppView {
    /// The settings are in range, and a game is named exactly while one is detected.
    pub open spec fn wf(self) -> bool {
        &&& self.config.in_range()
        &&& self.game_detected <==> self.detected_game_name.len() > 0
    }
}

/// The state at the start, with the entries that a scan of the captures directory found.
pub open spec fn initial_state(entries: Seq<ItemView>) -> AppView {
    AppView {
        config: default_config(),
        is_recording: false,
        game_detected: false,
        detected_game_name: Seq::empty(),
        buffer: Seq::empty(),
        trigger_save_clip: false,
        trigger_screenshot: false,
        new_game_input: Seq::empty(),
        active_tab: ActiveTab::Settings,
        library_items: listing(entries),
    }
}

/// What a key press brings about.
#[derive(Clone, Copy, Debug, PartialEq, Eq, Structural)]
pub enum HotkeyAction {
    /// A clip will be exported.
    SaveClip,
    /// Recording was switched on or off.
    ToggleRecording(bool),
    /// A screenshot will be taken.
    Screenshot,
    /// The key is no hotkey.
    Ignored,
}

/// What pressing `key` brings about. Where one key serves for several, the clip goes before
/// the recording switch and that before the screenshot.
pub open spec fn hotkey_action(app: AppView, key: Key) -> HotkeyAction {
    if key == app.config.clip_hotkey {
        HotkeyAction::SaveClip
    } else if key == app.config.record_toggle_hotkey {
        HotkeyAction::ToggleRecording(!app.is_recording)
    } else if key == app.config.screenshot_hotkey {
        HotkeyAction::Screenshot
    } else {
        HotkeyAction::Ignored
    }
}

/// The state after `key` was pressed.
pub open spec fn after_key(app: AppView, key: Key) -> AppView {
    match hotkey_action(app, key) {
        HotkeyAction::SaveClip => AppView { trigger_save_clip: true, ..app },
        HotkeyAction::ToggleRecording(on) => AppView { is_recording: on, ..app },
        HotkeyAction::Screenshot => AppView { trigger_screenshot: true, ..app },
        HotkeyAction::Ignored => app,
    }
}

/// What a look at the running processes brings about.
#[derive(Clone, Copy, Debug, PartialEq, Eq, Structural)]
pub enum GameChange {
    /// A game has started; recording was switched on.
    Detected,
    /// The game is gone; recording was switched off.
    Closed,
    /// Nothing has changed.
    Unchanged,
}

/// What it brings about that the processes showed `game`.
pub open spec fn game_change(app: AppView, game: Option<Seq<char>>) -> GameChange {
    if game is Some && !app.game_detected {
        GameChange::Detected
    } else if game is None && app.game_detected {
        GameChange::Closed
    } else {
        GameChange::Unchanged
    }
}

/// The state after the processes showed `game`: recording follows the coming and going of a
/// game, not its presence.
pub open spec fn after_game(app: AppView, game: Option<Seq<char>>) -> AppView {
    match game_change(app, game) {
        GameChange::Detected => AppView {
            game_detected: true,
            is_recording: true,
            detected_game_name: game->0,
            ..app
        },
        GameChange::Closed => AppView {
            game_detected: false,
            is_recording: false,
            detected_game_name: Seq::empty(),
            ..app
        },
        GameChange::Unchanged => app,
    }
}

/// Something that happened in the window.
pub enum UiEvent {
    /// A tab was chosen.
    SelectTab(ActiveTab),
    /// The replay length was set, in seconds.
    SetReplaySecs(u64),
    /// A capture rate was chosen.
    SetFps(u32),
    /// A quality profile was chosen.
    SetQuality(VideoQuality),
    /// The text for a further game is now this.
    EditGameInput(String),
    /// What the field for a further game and its button report.
    SubmitGame { add_clicked: bool, lost_focus: bool, enter_pressed: bool },
    /// The monitored game at this position is to go.
    RemoveGame(usize),
    /// The library is to be scanned again.
    RefreshLibrary,
    /// The capture at this position of the library is to be opened.
    OpenItem(usize),
    /// The capture at this position of the library is to be deleted.
    DeleteItem(usize),
}

/// What is to be done about an event in the window.
#[derive(Clone, Copy, Debug, PartialEq, Eq, Structural)]
pub enum UiAction {
    Nothing,
    /// Scan the captures directory and refresh the library with what is found.
    ScanLibrary,
    /// Open the file at this place of the last scan.
    OpenFile(usize),
    /// Delete the file at this place of the last scan, then scan as for `ScanLibrary`.
    DeleteFile(usize),
}

impl UiEvent {
    /// A position that the event carries exists.
    pub open spec fn applies_to(self, app: AppView) -> bool {
        match self {
            UiEvent::RemoveGame(i) => i < app.config.game_targets.len(),
            UiEvent::OpenItem(i) => i < app.library_items.len(),
            UiEvent::DeleteItem(i) => i < app.library_items.len(),
            _ => true,
        }
    }
}

/// The controls that bring the event about stand on the tab.
pub open spec fn offered_on(event: UiEvent, tab: ActiveTab) -> bool {
    match event {
        UiEvent::SelectTab(_) => true,
        UiEvent::RefreshLibrary => tab == ActiveTab::Library,
        UiEvent::OpenItem(_) => tab == ActiveTab::Library,
        UiEvent::DeleteItem(_) => tab == ActiveTab::Library,
        _ => tab == ActiveTab::Settings,
    }
}

/// `secs` moved into the range of replay lengths.
pub open spec fn clamped_secs(secs: u64) -> u64 {
    if secs < MIN_REPLAY_SECS {
        MIN_REPLAY_SECS
    } else if secs > MAX_REPLAY_SECS {
        MAX_REPLAY_SECS
    } else {
        secs
    }
}

/// The game in the field is added: by the button, or by Enter on leaving the field, and only
/// if there is more than white space in it.
pub open spec fn adds_game(
    input: Seq<char>,
    add_clicked: bool,
    lost_focus: bool,
    enter_pressed: bool,
) -> bool {
    (add_clicked || (lost_focus && enter_pressed)) && trimmed(input).len() > 0
}

/// The state after an event in the window.
pub open spec fn after_ui(app: AppView, event: UiEvent) -> AppView {
    match event {
        UiEvent::SelectTab(tab) => AppView { active_tab: tab, ..app },
        UiEvent::SetReplaySecs(secs) => AppView {
            config: ConfigView { replay_duration_secs: clamped_secs(secs), ..app.config },
            ..app
        },
        UiEvent::SetFps(fps) => if offered_fps(fps) {
            AppView { config: ConfigView { target_fps: fps, ..app.config }, ..app }
        } else {
            app
        },
        UiEvent::SetQuality(quality) => AppView {
            config: ConfigView { quality, ..app.config },
            ..app
        },
        UiEvent::EditGameInput(text) => AppView { new_game_input: text@, ..app },
        UiEvent::SubmitGame { add_clicked, lost_focus, enter_pressed } => if adds_game(
            app.new_game_input,
            add_clicked,
            lost_focus,
            enter_pressed,
        ) {
            AppView {
                config: ConfigView {
                    game_targets: app.config.game_targets.push(trimmed(app.new_game_input)),
                    ..app.config
                },
                new_game_input: Seq::empty(),
                ..app
            }
        } else {
            app
        },
        UiEvent::RemoveGame(i) => AppView {
            config: ConfigView {
                game_targets: app.config.game_targets.remove(i as int),
                ..app.config
            },
            ..app
        },
        UiEvent::RefreshLibrary => app,
        UiEvent::OpenItem(i) => app,
        UiEvent::DeleteItem(i) => app,
    }
}

/// What is to be done about an event in the window.
pub open spec fn ui_action(app: AppView, event: UiEvent) -> UiAction {
    match event {
        UiEvent::RefreshLibrary => UiAction::ScanLibrary,
        UiEvent::OpenItem(i) => UiAction::OpenFile(app.library_items[i as int].slot),
        UiEvent::DeleteItem(i) => UiAction::DeleteFile(app.library_items[i as int].slot),
        _ => UiAction::Nothing,
    }
}

/// The line on the clip hotkey.
pub open spec fn replay_label_text(app: AppView) -> Seq<char> {
    "• Clip Replay: [ F9 ] ("@ + decimal(app.config.replay_duration_secs as nat) + "s)"@
}

/// The line on the recording state.
pub open spec fn state_label_text(app: AppView) -> Seq<char> {
    if app.is_recording {
        "State: "@ + "🔴 RECORDING"@
    } else {
        "State: "@ + "⚪ IDLE"@
    }
}

/// The line on the detected game.
pub open spec fn game_label_text(app: AppView) -> Seq<char> {
    if app.game_detected {
        "🎮 GAME: "@ + app.detected_game_name
    } else {
        "⚪ NO GAME MATCH"@
    }
}

/// The line of a monitored game.
pub open spec fn target_label_text(target: Seq<char>) -> Seq<char> {
    "• "@ + target
}

impl LightSnipApp {
    /// The state is one that the recorder can be in.
    pub open spec fn wf(self) -> bool {
        self@.wf()
    }

    /// Starts idle, with the default settings, and lists the captures that a scan of their
    /// directory found.
    pub fn new(entries: Vec<LibraryItem>) -> (app: Self)
        ensures
            app.wf(),
            app@ == initial_state(item_views(entries@)),
    {
        let mut app = LightSnipApp {
            config: AppConfig::default(),
            is_recording: false,
            game_detected: false,
            detected_game_name: String::new(),
            buffer: ReplayBuffer::new(),
            trigger_save_clip: false,
            trigger_screenshot: false,
            new_game_input: String::new(),
            active_tab: ActiveTab::Settings,
            library_items: Vec::new(),
        };
        app.refresh_library(entries);
        proof {
            default_is_in_range();
        }
        app
    }

    /// Lists what a new scan of the captures directory found.
    pub fn refresh_library(&mut self, entries: Vec<LibraryItem>)
        ensures
            final(self)@ == (AppView {
                library_items: listing(item_views(entries@)),
                ..old(self)@
            }),
    {
        self.library_items = arrange(entries);
    }

    /// Handles the press of a key.
    pub fn key_pressed(&mut self, key: Key) -> (action: HotkeyAction)
        requires
            old(self).wf(),
        ensures
            final(self).wf(),
            action == hotkey_action(old(self)@, key),
            final(self)@ == after_key(old(self)@, key),
    {
        if key == self.config.clip_hotkey {
            self.trigger_save_clip = true;
            HotkeyAction::SaveClip
        } else if key == self.config.record_toggle_hotkey {
            self.is_recording = !self.is_recording;
            HotkeyAction::ToggleRecording(self.is_recording)
        } else if key == self.config.screenshot_hotkey {
            self.trigger_screenshot = true;
            HotkeyAction::Screenshot
        } else {
            HotkeyAction::Ignored
        }
    }

    /// Handles which game, if any, the running processes show. No process without a name is
    /// taken for a game, as no target is empty.
    pub fn observe_game(&mut self, game: Option<String>) -> (change: GameChange)
        requires
            old(self).wf(),
            game matches Some(name) ==> name@.len() > 0,
        ensures
            final(self).wf(),
            change == game_change(old(self)@, optional_text(game)),
            final(self)@ == after_game(old(self)@, optional_text(game)),
    {
        match game {
            Some(name) => {
                if self.game_detected {
                    GameChange::Unchanged
                } else {
                    self.game_detected = true;
                    self.is_recording = true;
                    self.detected_game_name = name;
                    GameChange::Detected
                }
            },
            None => {
                if self.game_detected {
                    self.game_detected = false;
                    self.is_recording = false;
                    self.detected_game_name = String::new();
                    GameChange::Closed
                } else {
                    GameChange::Unchanged
                }
            },
        }
    }

    /// Handles a look at the names of the running processes. The second pair of clauses
    /// says it again for names and targets that are all ASCII.
    pub fn observe_processes(&mut self, processes: &Vec<String>) -> (change: GameChange)
        requires
            old(self).wf(),
        ensures
            final(self).wf(),
            change == game_change(
                old(self)@,
                detected_game(texts(processes@), old(self)@.config.game_targets),
            ),
            final(self)@ == after_game(
                old(self)@,
                detected_game(texts(processes@), old(self)@.config.game_targets),
            ),
            all_texts_ascii(texts(processes@)) && all_texts_ascii(
                old(self)@.config.game_targets,
            ) ==> {
                let game = ascii_detected_game(
                    texts(processes@),
                    old(self)@.config.game_targets,
                );
                change == game_change(old(self)@, game) && final(self)@ == after_game(
                    old(self)@,
                    game,
                )
            },
    {
        assert forall|i: int| 0 <= i < self@.config.game_targets.len() implies #[trigger]
            self@.config.game_targets[i].len() > 0 by {
            assert(proper_target(self@.config.game_targets[i]));
        }
        let game = find_game(processes, &self.config.game_targets);
        self.observe_game(game)
    }

    /// From the screenshot on: takes it if it was asked for.
    fn screenshot_stage(&mut self, cycle: &mut CaptureCycle) -> (action: CaptureAction)
        ensures
            (StepView { app: final(self)@, cycle: final(cycle)@, action: action@ })
                == screenshot_stage_step(old(self)@, old(cycle)@),
    {
        if self.trigger_screenshot {
            self.trigger_screenshot = false;
            cycle.enter(CapturePhase::Screenshot);
            CaptureAction::TakeScreenshot
        } else {
            cycle.enter(CapturePhase::Pace);
            CaptureAction::MeasureElapsed
        }
    }

    /// From the clip on: exports it if it was asked for.
    fn clip_stage(&mut self, cycle: &mut CaptureCycle) -> (action: CaptureAction)
        ensures
            (StepView { app: final(self)@, cycle: final(cycle)@, action: action@ })
                == clip_stage_step(old(self)@, old(cycle)@),
    {
        if self.trigger_save_clip {
            self.trigger_save_clip = false;
            let job = ClipJob {
                frames: self.buffer.export(),
                fps: cycle.target_fps(),
                crf: cycle.quality().to_crf().to_owned(),
            };
            cycle.enter(CapturePhase::Clip);
            CaptureAction::ExportClip(job)
        } else {
            self.screenshot_stage(cycle)
        }
    }

    /// One step of the capturing thread: takes what the thread reports and says what it is to
    /// do next.
    pub fn capture_loop(&mut self, cycle: &mut CaptureCycle, event: CaptureEvent) -> (action:
        CaptureAction)
        requires
            old(self).wf(),
            old(cycle).wf(),
        ensures
            final(self).wf(),
            final(cycle).wf(),
            (StepView { app: final(self)@, cycle: final(cycle)@, action: action@ })
                == capture_step(old(self)@, old(cycle)@, event@),
            old(cycle)@.phase is Idle && event is Begin ==> {
                &&& final(cycle)@.replay_duration_secs == old(self)@.config.replay_duration_secs
                &&& final(cycle)@.target_fps == old(self)@.config.target_fps
                &&& final(cycle)@.quality == old(self)@.config.quality
            },
            !(old(cycle)@.phase is Idle && event is Begin) ==> {
                &&& final(cycle)@.replay_duration_secs == old(cycle)@.replay_duration_secs
                &&& final(cycle)@.target_fps == old(cycle)@.target_fps
                &&& final(cycle)@.quality == old(cycle)@.quality
            },
            action matches CaptureAction::ExportClip(job) ==> {
                &&& job.fps == final(cycle)@.target_fps
                &&& final(cycle)@.quality is Low ==> job.crf@ == "28"@
                &&& final(cycle)@.quality is Medium ==> job.crf@ == "23"@
                &&& final(cycle)@.quality is High ==> job.crf@ == "18"@
            },
    {
        match (cycle.phase(), event) {
            (CapturePhase::Idle, CaptureEvent::Begin) => {
                cycle.begin(
                    self.config.replay_duration_secs,
                    self.config.target_fps,
                    self.config.quality,
                );
                if self.is_recording {
                    CaptureAction::CaptureFrame
                } else {
                    self.buffer.clear();
                    self.clip_stage(cycle)
                }
            },
            (CapturePhase::Frame, CaptureEvent::FrameCaptured(frame)) => {
                self.buffer.record(frame, cycle.replay_duration_secs());
                self.clip_stage(cycle)
            },
            (CapturePhase::Frame, CaptureEvent::FrameFailed) => self.clip_stage(cycle),
            (CapturePhase::Clip, CaptureEvent::ClipTaken) => self.screenshot_stage(cycle),
            (CapturePhase::Screenshot, CaptureEvent::ScreenshotTaken) => {
                cycle.enter(CapturePhase::Pace);
                CaptureAction::MeasureElapsed
            },
            (CapturePhase::Pace, CaptureEvent::Elapsed(nanos)) => {
                let action = rest(cycle.target_fps(), nanos);
                cycle.enter(CapturePhase::Idle);
                action
            },
            _ => CaptureAction::Ignored,
        }
    }

    /// Adds the game in the field, if there is more than white space in it.
    fn add_game(&mut self)
        ensures
            final(self)@ == (if trimmed(old(self)@.new_game_input).len() > 0 {
                AppView {
                    config: ConfigView {
                        game_targets: old(self)@.config.game_targets.push(
                            trimmed(old(self)@.new_game_input),
                        ),
                        ..old(self)@.config
                    },
                    new_game_input: Seq::empty(),
                    ..old(self)@
                }
            } else {
                old(self)@
            }),
    {
        let game = trim(self.new_game_input.as_str()).to_owned();
        if !game.as_str().is_empty() {
            let ghost before = self.config.game_targets@;
            self.config.game_targets.push(game);
            assert(texts(self.config.game_targets@) =~= texts(before).push(game@));
            self.new_game_input = String::new();
        }
    }

    /// Handles an event in the window.
    pub fn update(&mut self, event: UiEvent) -> (action: UiAction)
        requires
            old(self).wf(),
            event.applies_to(old(self)@),
        ensures
            final(self).wf(),
            action == ui_action(old(self)@, event),
            final(self)@ == after_ui(old(self)@, event),
            event matches UiEvent::SetQuality(quality) ==> final(self)@.config.quality == quality,
            event matches UiEvent::SetFps(fps) ==> (fps == 15 || fps == 30 || fps == 60
                ==> final(self)@.config.target_fps == fps),
            event matches UiEvent::SetReplaySecs(secs) ==> (5 <= secs <= 60
                ==> final(self)@.config.replay_duration_secs == secs),
    {
        match event {
            UiEvent::SelectTab(tab) => {
                self.active_tab = tab;
                UiAction::Nothing
            },
            UiEvent::SetReplaySecs(secs) => {
                self.config.replay_duration_secs = if secs < MIN_REPLAY_SECS {
                    MIN_REPLAY_SECS
                } else if secs > MAX_REPLAY_SECS {
                    MAX_REPLAY_SECS
                } else {
                    secs
                };
                UiAction::Nothing
            },
            UiEvent::SetFps(fps) => {
                if is_offered_fps(fps) {
                    self.config.target_fps = fps;
                }
                UiAction::Nothing
            },
            UiEvent::SetQuality(quality) => {
                self.config.quality = quality;
                UiAction::Nothing
            },
            UiEvent::EditGameInput(text) => {
                self.new_game_input = text;
                UiAction::Nothing
            },
            UiEvent::SubmitGame { add_clicked, lost_focus, enter_pressed } => {
                proof {
                    trimming_is_idempotent(self@.new_game_input);
                }
                if add_clicked || (lost_focus && enter_pressed) {
                    self.add_game();
                }
                UiAction::Nothing
            },
            UiEvent::RemoveGame(i) => {
                let ghost before = self.config.game_targets@;
                self.config.game_targets.remove(i);
                assert(texts(self.config.game_targets@) =~= texts(before).remove(i as int));
                UiAction::Nothing
            },
            UiEvent::RefreshLibrary => UiAction::ScanLibrary,
            UiEvent::OpenItem(i) => UiAction::OpenFile(self.library_items[i].slot),
            UiEvent::DeleteItem(i) => UiAction::DeleteFile(self.library_items[i].slot),
        }
    }

    /// The settings.
    pub fn config(&self) -> (config: &AppConfig)
        ensures
            config@ == self@.config,
    {
        &self.config
    }

    /// Whether frames are captured into the replay buffer.
    pub fn is_recording(&self) -> (on: bool)
        ensures
            on == self@.is_recording,
    {
        self.is_recording
    }

    /// Whether a game is detected.
    pub fn game_detected(&self) -> (detected: bool)
        ensures
            detected == self@.game_detected,
    {
        self.game_detected
    }

    /// The name of the detected game; empty without one.
    pub fn detected_game_name(&self) -> (name: &str)
        ensures
            name@ == self@.detected_game_name,
    {
        self.detected_game_name.as_str()
    }

    /// The number of frames in the replay buffer.
    pub fn buffered_frames(&self) -> (n: usize)
        ensures
            n == self@.buffer.len(),
    {
        self.buffer.len()
    }

    /// The text in the field for a further game.
    pub fn new_game_input(&self) -> (text: &str)
        ensures
            text@ == self@.new_game_input,
    {
        self.new_game_input.as_str()
    }

    /// The tab that the window shows.
    pub fn active_tab(&self) -> (tab: ActiveTab)
        ensures
            tab == self@.active_tab,
    {
        self.active_tab
    }

    /// The captures, as the library lists them.
    pub fn library_items(&self) -> (items: &Vec<LibraryItem>)
        ensures
            item_views(items@) == self@.library_items,
    {
        &self.library_items
    }

    /// The line on the clip hotkey.
    pub fn replay_label(&self) -> (label: String)
        ensures
            label@ == replay_label_text(self@),
    {
        "• Clip Replay: [ F9 ] (".to_owned().concat(
            decimal_string(self.config.replay_duration_secs).as_str(),
        ).concat("s)")
    }

    /// The line on the recording state.
    pub fn state_label(&self) -> (label: String)
        ensures
            label@ == state_label_text(self@),
    {
        let state = if self.is_recording {
            "🔴 RECORDING"
        } else {
            "⚪ IDLE"
        };
        "State: ".to_owned().concat(state)
    }

    /// The line on the detected game.
    pub fn game_label(&self) -> (label: String)
        ensures
            label@ == game_label_text(self@),
    {
        if self.game_detected {
            "🎮 GAME: ".to_owned().concat(self.detected_game_name.as_str())
        } else {
            "⚪ NO GAME MATCH".to_owned()
        }
    }

    /// The lines of the monitored games, in order.
    pub fn target_labels(&self) -> (labels: Vec<String>)
        ensures
            texts(labels@) == self@.config.game_targets.map_values(
                |target: Seq<char>| target_label_text(target),
            ),
    {
        let mut labels: Vec<String> = Vec::new();
        let mut i: usize = 0;
        while i < self.config.game_targets.len()
            invariant
                i <= self.config.game_targets@.len(),
                labels@.len() == i,
                forall|j: int|
                    0 <= j < i ==> #[trigger] labels@[j]@ == target_label_text(
                        self.config.game_targets@[j]@,
                    ),
            decreases self.config.game_targets@.len() - i,
        {
            labels.push("• ".to_owned().concat(self.config.game_targets[i].as_str()));
            i += 1;
        }
        assert(texts(labels@) =~= self@.config.game_targets.map_values(
            |target: Seq<char>| target_label_text(target),
        ));
        labels
    }
}

} // verus!
