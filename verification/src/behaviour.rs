//! What the recorder does at each event, told by the fields of its state and of its answer.
use vstd::prelude::*;

use crate::app::{
    ActiveTab, AppView, HotkeyAction, UiAction, UiEvent, after_game, after_key, after_ui,
    game_change, game_label_text, hotkey_action, initial_state, offered_on, replay_label_text,
    state_label_text, target_label_text, ui_action,
};
use crate::capture::{
    ActionView, CaptureAction, CaptureEvent, ClipJob, CycleView, EventView, capture_step,
    pace_action,
};
use crate::config::{AppConfig, ConfigView, Key, default_config, proper_target};
use crate::detect::optional_text;
use crate::encode::texts;
use crate::gallery::{
    ItemView, LibraryItem, bytes_less, bytes_order_is_strict_and_total, capture_label, item_views,
    listing, listing_holds_the_entries, listing_is_descending,
};
use crate::operations::{
    numerals_are_decimal, recording_drops_by_the_nanosecond,
    the_end_of_a_text_is_its_last_characters, trimming_cuts_white_space_only, white_code,
};
use crate::quality::VideoQuality;
use crate::replay::FrameView;
use crate::stamps::value;
use crate::text::{decimal, trimmed};

verus! {

// ---- The capture cycle

/// A cycle begins with the replay length, the capture rate and the quality that are set at
/// that moment. While recording it captures a frame; otherwise the buffer is empty.
pub proof fn a_cycle_takes_over_the_settings(app: AppView, cycle: CycleView)
    requires
        cycle.phase is Idle,
    ensures
        ({
            let step = capture_step(app, cycle, EventView::Begin);
            &&& step.cycle.replay_duration_secs == app.config.replay_duration_secs
            &&& step.cycle.target_fps == app.config.target_fps
            &&& step.cycle.quality == app.config.quality
            &&& app.is_recording ==> step.action is CaptureFrame && step.cycle.phase is Frame
                && step.app == app
            &&& !app.is_recording ==> step.app.buffer.len() == 0
        }),
{
}

/// A cycle can be in any state in which, between cycles aside, its capture rate is positive.
pub proof fn cycles_under_way_have_a_rate(cycle: CycleView)
    ensures
        cycle.wf() <==> cycle.phase is Idle || cycle.target_fps >= 1,
{
}

/// After its beginning a cycle keeps the replay length, the capture rate and the quality.
pub proof fn a_cycle_keeps_its_settings(app: AppView, cycle: CycleView, event: EventView)
    requires
        !(cycle.phase is Idle && event is Begin),
    ensures
        ({
            let step = capture_step(app, cycle, event);
            &&& step.cycle.replay_duration_secs == cycle.replay_duration_secs
            &&& step.cycle.target_fps == cycle.target_fps
            &&& step.cycle.quality == cycle.quality
        }),
{
}

/// Once the frame is captured, or could not be, or none is due, a clip that was asked for is
/// exported; else a screenshot that was asked for is taken; else the time is measured.
pub proof fn requests_decide_what_comes_next(app: AppView, cycle: CycleView, event: EventView)
    requires
        (cycle.phase is Idle && event is Begin && !app.is_recording) || (cycle.phase is Frame && (
        event is FrameCaptured || event is FrameFailed)),
    ensures
        ({
            let step = capture_step(app, cycle, event);
            &&& app.trigger_save_clip ==> step.action is ExportClip && step.cycle.phase is Clip
                && !step.app.trigger_save_clip && step.app.trigger_screenshot
                == app.trigger_screenshot
            &&& !app.trigger_save_clip && app.trigger_screenshot ==> step.action is TakeScreenshot
                && step.cycle.phase is Screenshot && !step.app.trigger_screenshot
                && !step.app.trigger_save_clip
            &&& !app.trigger_save_clip && !app.trigger_screenshot ==> step.action is MeasureElapsed
                && step.cycle.phase is Pace && !step.app.trigger_screenshot
                && !step.app.trigger_save_clip
        }),
{
}

/// After the clip a screenshot that was asked for is taken; else, and after a screenshot, the
/// time is measured; and after that the cycle is over.
pub proof fn the_rest_of_a_cycle_follows(app: AppView, cycle: CycleView, elapsed: u128)
    ensures
        cycle.phase is Clip ==> ({
            let step = capture_step(app, cycle, EventView::ClipTaken);
            &&& app.trigger_screenshot ==> step.action is TakeScreenshot && step.cycle.phase
                is Screenshot && !step.app.trigger_screenshot
            &&& !app.trigger_screenshot ==> step.action is MeasureElapsed && step.cycle.phase
                is Pace
            &&& step.app.trigger_save_clip == app.trigger_save_clip
            &&& step.app.buffer == app.buffer
        }),
        cycle.phase is Screenshot ==> ({
            let step = capture_step(app, cycle, EventView::ScreenshotTaken);
            step.action is MeasureElapsed && step.cycle.phase is Pace && step.app == app
        }),
        cycle.phase is Pace ==> ({
            let step = capture_step(app, cycle, EventView::Elapsed(elapsed));
            (step.action is Sleep || step.action is Proceed) && step.cycle.phase is Idle
                && step.app == app && step.action == pace_action(cycle.target_fps, elapsed)
        }),
{
}

/// An event that does not belong to the phase is ignored, and changes nothing.
pub proof fn other_events_are_ignored(app: AppView, cycle: CycleView, event: EventView)
    requires
        event is Begin ==> !(cycle.phase is Idle),
        event is FrameCaptured || event is FrameFailed ==> !(cycle.phase is Frame),
        event is ClipTaken ==> !(cycle.phase is Clip),
        event is ScreenshotTaken ==> !(cycle.phase is Screenshot),
        event is Elapsed ==> !(cycle.phase is Pace),
    ensures
        ({
            let step = capture_step(app, cycle, event);
            step.action is Ignored && step.app == app && step.cycle == cycle
        }),
{
}

/// A clip that is exported has the frames of the buffer, one by one in their order, at the
/// cycle's capture rate and with the rate factor of the cycle's quality.
pub proof fn a_clip_has_the_frames_and_the_settings(
    app: AppView,
    cycle: CycleView,
    event: EventView,
)
    ensures
        capture_step(app, cycle, event).action matches ActionView::ExportClip(job) ==> ({
            let step = capture_step(app, cycle, event);
            &&& job.fps == step.cycle.target_fps
            &&& step.cycle.quality is Low ==> job.crf == "28"@
            &&& step.cycle.quality is Medium ==> job.crf == "23"@
            &&& step.cycle.quality is High ==> job.crf == "18"@
            &&& job.frames.len() == step.app.buffer.len()
            &&& forall|i: int|
                0 <= i < step.app.buffer.len() ==> job.frames[i] == (
                    #[trigger] step.app.buffer[i].width,
                    step.app.buffer[i].height,
                    step.app.buffer[i].pixels,
                )
        }),
{
}

/// A frame that is captured comes last in the buffer; frames leave at its front only, those
/// that are older by more than the cycle's replay length in nanoseconds, up to the first that
/// is not.
pub proof fn a_captured_frame_is_buffered(
    app: AppView,
    cycle: CycleView,
    frame: FrameView,
) -> (dropped: int)
    requires
        cycle.phase is Frame,
    ensures
        ({
            let buffer = capture_step(app, cycle, EventView::FrameCaptured(frame)).app.buffer;
            let limit = cycle.replay_duration_secs * 1_000_000_000;
            &&& 0 <= dropped <= app.buffer.len()
            &&& buffer.len() == app.buffer.len() + 1 - dropped
            &&& buffer.last() == frame
            &&& forall|i: int|
                dropped <= i < app.buffer.len() ==> buffer[i - dropped] == #[trigger] app.buffer[i]
            &&& forall|i: int|
                0 <= i < dropped ==> frame.timestamp - #[trigger] app.buffer[i].timestamp > limit
            &&& dropped < app.buffer.len() ==> frame.timestamp - app.buffer[dropped].timestamp
                <= limit
        }),
{
    recording_drops_by_the_nanosecond(app.buffer, frame, cycle.replay_duration_secs)
}

/// Capturing touches the buffer and the two requests, and nothing else of the state.
pub proof fn capturing_touches_three_things(app: AppView, cycle: CycleView, event: EventView)
    ensures
        ({
            let after = capture_step(app, cycle, event).app;
            &&& after.config == app.config
            &&& after.is_recording == app.is_recording
            &&& after.game_detected == app.game_detected
            &&& after.detected_game_name == app.detected_game_name
            &&& after.new_game_input == app.new_game_input
            &&& after.active_tab == app.active_tab
            &&& after.library_items == app.library_items
        }),
{
}

/// The buffer changes with a captured frame, and empties with a cycle that begins while
/// nothing is recorded; at any other event it stays.
pub proof fn the_buffer_stays_otherwise(app: AppView, cycle: CycleView, event: EventView)
    requires
        !(cycle.phase is Frame && event is FrameCaptured),
        !(cycle.phase is Idle && event is Begin && !app.is_recording),
    ensures
        capture_step(app, cycle, event).app.buffer == app.buffer,
{
}

/// The pause: with `d` the number of whole milliseconds between two frames at the capture
/// rate, it lasts until `d` milliseconds of the cycle have passed.
pub proof fn the_pause_fills_the_frame_time(fps: u32, elapsed: u128, d: nat)
    requires
        fps > 0,
        d * fps <= 1000,
        1000 < (d + 1) * fps,
    ensures
        match pace_action(fps, elapsed) {
            ActionView::Sleep(nanos) => elapsed < d * 1_000_000 && nanos == d * 1_000_000 - elapsed,
            ActionView::Proceed => elapsed >= d * 1_000_000,
            _ => false,
        },
{
    let q = 1000int / fps as int;
    assert(q == d && d <= 1000) by (nonlinear_arith)
        requires
            fps > 0,
            d * fps <= 1000,
            1000 < (d + 1) * fps,
            q == 1000int / fps as int,
    ;
}

/// At the rates on offer a frame is due every 66, 33 or 16 milliseconds.
pub proof fn the_pause_at_the_rates_on_offer(elapsed: u128)
    ensures
        elapsed < 66_000_000 ==> pace_action(15, elapsed) == ActionView::Sleep(
            (66_000_000 - elapsed) as u64,
        ),
        elapsed < 33_000_000 ==> pace_action(30, elapsed) == ActionView::Sleep(
            (33_000_000 - elapsed) as u64,
        ),
        elapsed < 16_000_000 ==> pace_action(60, elapsed) == ActionView::Sleep(
            (16_000_000 - elapsed) as u64,
        ),
        elapsed >= 66_000_000 ==> pace_action(15, elapsed) is Proceed,
        elapsed >= 33_000_000 ==> pace_action(30, elapsed) is Proceed,
        elapsed >= 16_000_000 ==> pace_action(60, elapsed) is Proceed,
{
    the_pause_fills_the_frame_time(15, elapsed, 66);
    the_pause_fills_the_frame_time(30, elapsed, 33);
    the_pause_fills_the_frame_time(60, elapsed, 16);
}

/// From its beginning to its end a cycle goes by the settings at its beginning, whatever is
/// set in its course: the clip has the capture rate and the rate factor set then, and the
/// pause is that of the rate set then.
pub proof fn a_cycle_runs_by_the_settings_at_its_beginning(
    app: AppView,
    cycle: CycleView,
    at_frame: AppView,
    frame: FrameView,
    at_clip: AppView,
    at_pause: AppView,
    elapsed: u128,
)
    requires
        cycle.phase is Idle,
        app.is_recording,
        at_frame.trigger_save_clip,
        !at_clip.trigger_screenshot,
    ensures
        ({
            let begun = capture_step(app, cycle, EventView::Begin);
            let clip = capture_step(at_frame, begun.cycle, EventView::FrameCaptured(frame));
            let measured = capture_step(at_clip, clip.cycle, EventView::ClipTaken);
            let paused = capture_step(at_pause, measured.cycle, EventView::Elapsed(elapsed));
            &&& clip.action matches ActionView::ExportClip(job) && job.fps == app.config.target_fps
                && (app.config.quality is Low ==> job.crf == "28"@) && (app.config.quality is Medium
                ==> job.crf == "23"@) && (app.config.quality is High ==> job.crf == "18"@)
            &&& paused.action == pace_action(app.config.target_fps, elapsed)
        }),
{
}

/// Events, clips and actions of the capturing thread are told by what they carry.
pub proof fn captures_are_seen_whole(event: CaptureEvent, action: CaptureAction, job: ClipJob)
    ensures
        event is Begin <==> event@ is Begin,
        event matches CaptureEvent::FrameCaptured(frame) ==> event@ == EventView::FrameCaptured(
            frame@,
        ),
        event is FrameFailed <==> event@ is FrameFailed,
        event is ClipTaken <==> event@ is ClipTaken,
        event is ScreenshotTaken <==> event@ is ScreenshotTaken,
        event matches CaptureEvent::Elapsed(nanos) ==> event@ == EventView::Elapsed(nanos),
        action is CaptureFrame <==> action@ is CaptureFrame,
        action matches CaptureAction::ExportClip(clip) ==> action@ == ActionView::ExportClip(clip@),
        action is TakeScreenshot <==> action@ is TakeScreenshot,
        action is MeasureElapsed <==> action@ is MeasureElapsed,
        action matches CaptureAction::Sleep(nanos) ==> action@ == ActionView::Sleep(nanos),
        action is Proceed <==> action@ is Proceed,
        action is Ignored <==> action@ is Ignored,
        job@.fps == job.fps,
        job@.crf == job.crf@,
        job@.frames.len() == job.frames@.len(),
        forall|i: int|
            0 <= i < job.frames@.len() ==> job@.frames[i] == (
                #[trigger] job.frames@[i].0,
                job.frames@[i].1,
                job.frames@[i].2@,
            ),
{
}

// ---- Hotkeys and games

/// What each hotkey does; the clip's goes before the switch's, and that before the
/// screenshot's.
pub proof fn each_hotkey_does_its_part(app: AppView, key: Key)
    ensures
        key == app.config.clip_hotkey ==> hotkey_action(app, key) is SaveClip && after_key(app, key)
            == (AppView { trigger_save_clip: true, ..app }),
        key != app.config.clip_hotkey && key == app.config.record_toggle_hotkey ==> hotkey_action(
            app,
            key,
        ) == HotkeyAction::ToggleRecording(!app.is_recording) && after_key(app, key) == (AppView {
            is_recording: !app.is_recording,
            ..app
        }),
        key != app.config.clip_hotkey && key != app.config.record_toggle_hotkey && key
            == app.config.screenshot_hotkey ==> hotkey_action(app, key) is Screenshot && after_key(
            app,
            key,
        ) == (AppView { trigger_screenshot: true, ..app }),
        key != app.config.clip_hotkey && key != app.config.record_toggle_hotkey && key
            != app.config.screenshot_hotkey ==> hotkey_action(app, key) is Ignored && after_key(
            app,
            key,
        ) == app,
{
}

/// A name that was found is told by its characters.
pub proof fn names_are_seen_whole(name: String)
    ensures
        optional_text(Some(name)) == Some(name@),
        optional_text(None) == None::<Seq<char>>,
{
}

/// A game that comes is shown by its name and switches the recording on; when it is gone the
/// name goes and the recording is switched off; otherwise nothing changes.
pub proof fn games_come_and_go(app: AppView, name: Seq<char>)
    ensures
        !app.game_detected ==> game_change(app, Some(name)) is Detected && after_game(
            app,
            Some(name),
        ) == (AppView {
            game_detected: true,
            is_recording: true,
            detected_game_name: name,
            ..app
        }),
        app.game_detected ==> game_change(app, Some(name)) is Unchanged && after_game(
            app,
            Some(name),
        ) == app,
        app.game_detected ==> game_change(app, None) is Closed && ({
            let after = after_game(app, None);
            &&& !after.game_detected && !after.is_recording && after.detected_game_name.len() == 0
            &&& after == (AppView {
                game_detected: false,
                is_recording: false,
                detected_game_name: after.detected_game_name,
                ..app
            })
        }),
        !app.game_detected ==> game_change(app, None) is Unchanged && after_game(app, None) == app,
{
}

// ---- The window

/// The hotkeys are the same before and after.
pub open spec fn hotkeys_stay(before: ConfigView, after: ConfigView) -> bool {
    &&& after.clip_hotkey == before.clip_hotkey
    &&& after.record_toggle_hotkey == before.record_toggle_hotkey
    &&& after.screenshot_hotkey == before.screenshot_hotkey
}

/// What is chosen is set: every quality; the rates of 15, 30 and 60 frames a second and no
/// other; every replay length from 5 to 60 seconds, and a length beyond them as the nearest.
/// Nothing else of the settings or of the state changes.
pub proof fn what_is_chosen_is_set(app: AppView, quality: VideoQuality, fps: u32, secs: u64)
    ensures
        ({
            let after = after_ui(app, UiEvent::SetQuality(quality)).config;
            &&& after.quality == quality
            &&& after.target_fps == app.config.target_fps
            &&& after.replay_duration_secs == app.config.replay_duration_secs
            &&& after.game_targets == app.config.game_targets
            &&& hotkeys_stay(app.config, after)
            &&& after_ui(app, UiEvent::SetQuality(quality)) == (AppView { config: after, ..app })
        }),
        ({
            let after = after_ui(app, UiEvent::SetFps(fps)).config;
            &&& fps == 15 || fps == 30 || fps == 60 ==> after.target_fps == fps
            &&& fps != 15 && fps != 30 && fps != 60 ==> after.target_fps == app.config.target_fps
            &&& after.quality == app.config.quality
            &&& after.replay_duration_secs == app.config.replay_duration_secs
            &&& after.game_targets == app.config.game_targets
            &&& hotkeys_stay(app.config, after)
            &&& after_ui(app, UiEvent::SetFps(fps)) == (AppView { config: after, ..app })
        }),
        ({
            let after = after_ui(app, UiEvent::SetReplaySecs(secs)).config;
            &&& 5 <= secs <= 60 ==> after.replay_duration_secs == secs
            &&& secs < 5 ==> after.replay_duration_secs == 5
            &&& secs > 60 ==> after.replay_duration_secs == 60
            &&& after.quality == app.config.quality
            &&& after.target_fps == app.config.target_fps
            &&& after.game_targets == app.config.game_targets
            &&& hotkeys_stay(app.config, after)
            &&& after_ui(app, UiEvent::SetReplaySecs(secs)) == (AppView { config: after, ..app })
        }),
{
}

/// A tab that is chosen is shown; a text that is typed is in the field.
pub proof fn what_is_typed_is_kept(app: AppView, tab: ActiveTab, text: String)
    ensures
        after_ui(app, UiEvent::SelectTab(tab)) == (AppView { active_tab: tab, ..app }),
        after_ui(app, UiEvent::EditGameInput(text)) == (AppView { new_game_input: text@, ..app }),
{
}

/// The game in the field is added at the end of the list, trimmed, and the field emptied:
/// when the button is clicked, or when the field is left with Enter; never when there is
/// nothing but white space in it. Otherwise nothing changes.
pub proof fn the_game_in_the_field_is_added(
    app: AppView,
    add_clicked: bool,
    lost_focus: bool,
    enter_pressed: bool,
)
    ensures
        ({
            let event = UiEvent::SubmitGame { add_clicked, lost_focus, enter_pressed };
            let after = after_ui(app, event);
            let game = trimmed(app.new_game_input);
            let n = app.config.game_targets.len() as int;
            let asked = add_clicked || (lost_focus && enter_pressed);
            &&& asked && game.len() > 0 ==> {
                &&& after.config.game_targets.len() == n + 1
                &&& after.config.game_targets[n] == game
                &&& forall|i: int|
                    0 <= i < n ==> after.config.game_targets[i]
                        == #[trigger] app.config.game_targets[i]
                &&& after.new_game_input.len() == 0
                &&& after.config.quality == app.config.quality
                &&& after.config.target_fps == app.config.target_fps
                &&& after.config.replay_duration_secs == app.config.replay_duration_secs
                &&& hotkeys_stay(app.config, after.config)
                &&& after == (AppView {
                    config: after.config,
                    new_game_input: after.new_game_input,
                    ..app
                })
            }
            &&& !asked || game.len() == 0 ==> after == app
        }),
{
}

/// The game at the position goes; those before it stay in their places and those behind it
/// move up by one.
pub proof fn the_chosen_game_is_removed(app: AppView, at: usize)
    requires
        at < app.config.game_targets.len(),
    ensures
        ({
            let before = app.config.game_targets;
            let after = after_ui(app, UiEvent::RemoveGame(at));
            &&& after.config.game_targets.len() == before.len() - 1
            &&& forall|i: int|
                0 <= i < at ==> after.config.game_targets[i] == #[trigger] before[i]
            &&& forall|i: int|
                at < i < before.len() ==> after.config.game_targets[i - 1] == #[trigger] before[i]
            &&& after.config.quality == app.config.quality
            &&& after.config.target_fps == app.config.target_fps
            &&& after.config.replay_duration_secs == app.config.replay_duration_secs
            &&& hotkeys_stay(app.config, after.config)
            &&& after == (AppView { config: after.config, ..app })
        }),
{
}

/// The library asks for a scan, or for the file at the place of the item's scan, and for
/// nothing at any other event.
pub proof fn the_library_asks_for_its_files(app: AppView, at: usize, event: UiEvent)
    requires
        at < app.library_items.len(),
    ensures
        ui_action(app, UiEvent::RefreshLibrary) is ScanLibrary,
        ui_action(app, UiEvent::OpenItem(at)) == UiAction::OpenFile(
            app.library_items[at as int].slot,
        ),
        ui_action(app, UiEvent::DeleteItem(at)) == UiAction::DeleteFile(
            app.library_items[at as int].slot,
        ),
        !(event is RefreshLibrary) && !(event is OpenItem) && !(event is DeleteItem) ==> ui_action(
            app,
            event,
        ) is Nothing,
        event is RefreshLibrary || event is OpenItem || event is DeleteItem ==> after_ui(app, event)
            == app,
{
}

/// An event can be handled wherever the position it carries exists, if it carries one. The
/// controls of the library stand on its tab, the tabs themselves on both, all others on the
/// settings tab.
pub proof fn events_apply_where_their_positions_exist(app: AppView, event: UiEvent)
    ensures
        event.applies_to(app) <==> {
            &&& event matches UiEvent::RemoveGame(i) ==> i < app.config.game_targets.len()
            &&& event matches UiEvent::OpenItem(i) ==> i < app.library_items.len()
            &&& event matches UiEvent::DeleteItem(i) ==> i < app.library_items.len()
        },
        offered_on(event, ActiveTab::Library) <==> event is SelectTab || event is RefreshLibrary
            || event is OpenItem || event is DeleteItem,
        offered_on(event, ActiveTab::Settings) <==> !(event is RefreshLibrary || event is OpenItem
            || event is DeleteItem),
{
}

/// The lines of the window: the replay length in decimal, the recording state, the game, and
/// the monitored games behind a bullet.
pub proof fn the_lines_say_what_is(app: AppView, target: Seq<char>)
    ensures
        ({
            let numeral = decimal(app.config.replay_duration_secs as nat);
            &&& replay_label_text(app) == "• Clip Replay: [ F9 ] ("@ + numeral + "s)"@
            &&& value(numeral) == app.config.replay_duration_secs
        }),
        app.is_recording ==> state_label_text(app) == "State: "@ + "🔴 RECORDING"@,
        !app.is_recording ==> state_label_text(app) == "State: "@ + "⚪ IDLE"@,
        app.game_detected ==> game_label_text(app) == "🎮 GAME: "@ + app.detected_game_name,
        !app.game_detected ==> game_label_text(app) == "⚪ NO GAME MATCH"@,
        target_label_text(target) == "• "@ + target,
{
    numerals_are_decimal(app.config.replay_duration_secs as nat);
}

// ---- The start and the settings

/// The settings and the state at the start, one by one.
pub proof fn the_recorder_starts_like_this(entries: Seq<ItemView>)
    ensures
        ({
            let app = initial_state(entries);
            &&& app.config.replay_duration_secs == 15
            &&& app.config.target_fps == 30
            &&& app.config.quality is Medium
            &&& app.config.clip_hotkey is F9
            &&& app.config.record_toggle_hotkey is F10
            &&& app.config.screenshot_hotkey is F11
            &&& app.config.game_targets.len() == 5
            &&& app.config.game_targets[0] == "minecraft"@
            &&& app.config.game_targets[1] == "javaw.exe"@
            &&& app.config.game_targets[2] == "sober"@
            &&& app.config.game_targets[3] == "cs2.exe"@
            &&& app.config.game_targets[4] == "VALORANT-Win64-Shipping.exe"@
            &&& !app.is_recording && !app.game_detected && !app.trigger_save_clip
                && !app.trigger_screenshot
            &&& app.detected_game_name.len() == 0 && app.buffer.len() == 0
                && app.new_game_input.len() == 0
            &&& app.active_tab is Settings
            &&& app.config == default_config()
            &&& app.library_items == listing(entries)
        }),
{
}

/// Settings are in range exactly if the replay lasts 5 to 60 seconds, the rate is 15, 30 or 60
/// frames a second, and every game has characters and no white space around them; and a state
/// is sound if, besides, a game has a name exactly while it is detected.
pub proof fn sound_states_are_these(app: AppView)
    ensures
        app.config.in_range() <==> {
            &&& 5 <= app.config.replay_duration_secs <= 60
            &&& app.config.target_fps == 15 || app.config.target_fps == 30 || app.config.target_fps
                == 60
            &&& forall|i: int|
                0 <= i < app.config.game_targets.len() ==> {
                    let game = #[trigger] app.config.game_targets[i];
                    game.len() > 0 && !white_code(game[0] as int) && !white_code(game.last() as int)
                }
        },
        app.wf() <==> app.config.in_range() && (app.game_detected <==> app.detected_game_name.len()
            != 0),
{
    assert forall|game: Seq<char>| game.len() > 0 implies (#[trigger] proper_target(game)
        <==> !white_code(game[0] as int) && !white_code(game.last() as int)) by {
        let ends = trimming_cuts_white_space_only(game);
        if !white_code(game[0] as int) && !white_code(game.last() as int) {
            let inner = trimmed(game);
            if ends.0.len() > 0 {
                assert(game[0] == ends.0[0]);
            }
            if ends.1.len() > 0 {
                assert(game.last() == ends.1[ends.1.len() - 1]);
            }
            assert(inner =~= game);
        }
    }
    assert forall|i: int| 0 <= i < app.config.game_targets.len() implies (proper_target(
        #[trigger] app.config.game_targets[i],
    ) <==> {
        let game = app.config.game_targets[i];
        game.len() > 0 && !white_code(game[0] as int) && !white_code(game.last() as int)
    }) by {
        let game = app.config.game_targets[i];
        assert(game.len() > 0 ==> (proper_target(game) <==> !white_code(game[0] as int)
            && !white_code(game.last() as int)));
    }
}

/// Settings are told by their fields, and lists of strings by their texts, one by one.
pub proof fn settings_are_seen_whole(config: AppConfig, strings: Seq<String>)
    ensures
        config@.replay_duration_secs == config.replay_duration_secs,
        config@.target_fps == config.target_fps,
        config@.quality == config.quality,
        config@.clip_hotkey == config.clip_hotkey,
        config@.record_toggle_hotkey == config.record_toggle_hotkey,
        config@.screenshot_hotkey == config.screenshot_hotkey,
        config@.game_targets.len() == config.game_targets@.len(),
        forall|i: int|
            0 <= i < config.game_targets@.len() ==> config@.game_targets[i]
                == #[trigger] config.game_targets@[i]@,
        texts(strings).len() == strings.len(),
        forall|i: int| 0 <= i < strings.len() ==> texts(strings)[i] == #[trigger] strings[i]@,
{
}

// ---- The library

/// Of two names that are alike up to a place, the one with the lesser byte there comes first;
/// and a name comes before any that goes on after it.
pub proof fn names_are_ordered_byte_by_byte(a: Seq<u8>, b: Seq<u8>, k: int)
    requires
        0 <= k <= a.len(),
        k < b.len(),
        forall|i: int| 0 <= i < k ==> #[trigger] a[i] == b[i],
        k < a.len() ==> a[k] != b[k],
    ensures
        k == a.len() ==> bytes_less(a, b) && !bytes_less(b, a),
        k < a.len() ==> (bytes_less(a, b) <==> a[k] < b[k]) && (bytes_less(b, a) <==> b[k] < a[k]),
    decreases k,
{
    if k > 0 {
        assert(a[0] == b[0]);
        let a1 = a.drop_first();
        let b1 = b.drop_first();
        assert forall|i: int| 0 <= i < k - 1 implies #[trigger] a1[i] == b1[i] by {
            assert(a[i + 1] == b[i + 1]);
        }
        names_are_ordered_byte_by_byte(a1, b1, k - 1);
    }
}

/// Wherever two items stand in the library, the one that stands first has the greater name,
/// or both have the same; the library lists as many items as were scanned, and the same ones.
pub proof fn the_library_goes_from_the_greatest_name_down(
    entries: Seq<ItemView>,
    i: int,
    j: int,
)
    requires
        0 <= i < j < listing(entries).len(),
    ensures
        listing(entries)[i].name == listing(entries)[j].name || bytes_less(
            listing(entries)[j].name,
            listing(entries)[i].name,
        ),
        listing(entries).len() == entries.len(),
        listing(entries).to_multiset() == entries.to_multiset(),
{
    listing_is_descending(entries);
    listing_holds_the_entries(entries);
    let a = listing(entries)[i].name;
    let b = listing(entries)[j].name;
    assert(!bytes_less(listing(entries)[i].name, listing(entries)[j].name));
    bytes_order_is_strict_and_total(a, b, a);
}

/// A capture whose name ends in the four characters of `.mp4` is labelled as a clip, every
/// other as an image, each with its whole name.
pub proof fn captures_are_labelled_by_their_end(name: Seq<char>)
    ensures
        ({
            let n = name.len() as int;
            let clip = n >= 4 && name[n - 4] == '.' && name[n - 3] == 'm' && name[n - 2] == 'p'
                && name[n - 1] == '4';
            &&& clip ==> capture_label(name) == "🎬 [MP4 Clip] "@ + name
            &&& !clip ==> capture_label(name) == "🖼 [Image] "@ + name
        }),
{
    reveal_strlit(".mp4");
    the_end_of_a_text_is_its_last_characters(name, ".mp4"@);
    let n = name.len() as int;
    let suffix = ".mp4"@;
    assert(suffix[0] == '.' && suffix[1] == 'm' && suffix[2] == 'p' && suffix[3] == '4');
}

/// Items are told by their place in the scan and their names, one by one.
pub proof fn items_are_seen_whole(items: Seq<LibraryItem>)
    ensures
        item_views(items).len() == items.len(),
        forall|i: int|
            0 <= i < items.len() ==> {
                let item = #[trigger] items[i];
                &&& item_views(items)[i].slot == item.slot
                &&& item_views(items)[i].name == item.name@
                &&& item_views(items)[i].file_name == item.file_name@
            },
{
}

} // verus!
