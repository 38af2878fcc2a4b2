//! What holds of the recorder as a whole.
use vstd::prelude::*;

use crate::app::{
    ActiveTab, AppView, UiEvent, adds_game, after_game, after_key, after_ui, hotkey_action,
    initial_state, offered_on, ui_action,
};
use crate::capture::{
    ActionView, CapturePhase, CycleView, EventView, capture_step, frame_delay_nanos, pace_action,
};
use crate::config::{Key, default_is_in_range, proper_target};
use crate::gallery::ItemView;
use crate::replay::{
    FrameView, buffer_holds_the_last_seconds, expired, in_capture_order, newest_frame_is_kept,
    pictures, recorded,
};
use crate::text::trimming_is_idempotent;

verus! {

/// The recorder starts in a state it can be in, whatever the captures directory holds.
pub proof fn initial_state_is_wf(entries: Seq<ItemView>)
    ensures
        initial_state(entries).wf(),
{
    default_is_in_range();
}

/// Whatever happens, the replay length stays between the shortest and the longest, the
/// capture rate stays one of those on offer, no monitored game is empty, and a game is named
/// exactly while one is detected.
pub proof fn every_change_keeps_the_state_wf(
    app: AppView,
    key: Key,
    game: Option<Seq<char>>,
    ui: UiEvent,
    cycle: CycleView,
    event: EventView,
)
    requires
        app.wf(),
        game matches Some(name) ==> name.len() > 0,
        ui.applies_to(app),
        cycle.wf(),
    ensures
        after_key(app, key).wf(),
        after_game(app, game).wf(),
        after_ui(app, ui).wf(),
        capture_step(app, cycle, event).app.wf(),
        capture_step(app, cycle, event).cycle.wf(),
{
    trimming_is_idempotent(app.new_game_input);
    let targets = app.config.game_targets;
    let after = after_ui(app, ui).config.game_targets;
    assert forall|i: int| 0 <= i < after.len() implies proper_target(#[trigger] after[i]) by {
        match ui {
            UiEvent::RemoveGame(at) => {
                assert(after[i] == if i < at { targets[i] } else { targets[i + 1] });
            },
            UiEvent::SubmitGame { add_clicked, lost_focus, enter_pressed } => {
                if i < targets.len() {
                    assert(after[i] == targets[i]);
                }
            },
            _ => {
                assert(after[i] == targets[i]);
            },
        }
    }
}

/// Pressing the recording switch twice changes nothing.
pub proof fn toggling_twice_changes_nothing(app: AppView, key: Key)
    requires
        hotkey_action(app, key) is ToggleRecording,
    ensures
        after_key(app, key).is_recording == !app.is_recording,
        after_key(after_key(app, key), key) == app,
{
}

/// A hotkey asks for a clip, asks for a screenshot or switches the recording, and touches
/// nothing else; a key that is no hotkey does nothing.
pub proof fn keys_touch_one_flag(app: AppView, key: Key)
    ensures
        after_key(app, key) == (AppView {
            trigger_save_clip: app.trigger_save_clip || hotkey_action(app, key) is SaveClip,
            trigger_screenshot: app.trigger_screenshot || hotkey_action(app, key) is Screenshot,
            is_recording: app.is_recording != (hotkey_action(app, key) is ToggleRecording),
            ..app
        }),
        hotkey_action(app, key) is Ignored <==> key != app.config.clip_hotkey && key
            != app.config.record_toggle_hotkey && key != app.config.screenshot_hotkey,
{
}

/// After a look at the processes a game counts as detected exactly if the look showed one,
/// and looking again with the same outcome changes nothing.
pub proof fn detection_settles(app: AppView, game: Option<Seq<char>>)
    ensures
        after_game(app, game).game_detected == (game is Some),
        after_game(after_game(app, game), game) == after_game(app, game),
{
}

/// The coming of a game switches the recording on, its going switches it off.
pub proof fn recording_follows_the_game(app: AppView, game: Option<Seq<char>>)
    ensures
        game is Some && !app.game_detected ==> after_game(app, game).is_recording,
        game is None && app.game_detected ==> !after_game(app, game).is_recording,
{
}

/// While a game stays, or stays away, the recording is left as the user switched it, and the
/// game shown is the one that was detected first.
pub proof fn detection_respects_the_switch(app: AppView, key: Key, game: Option<Seq<char>>)
    requires
        app.game_detected == (game is Some),
    ensures
        after_game(after_key(app, key), game) == after_key(app, key),
{
}

/// A look at the processes touches the recording and what is known of the game, nothing else.
pub proof fn looking_leaves_the_rest_alone(app: AppView, game: Option<Seq<char>>)
    ensures
        after_game(app, game) == (AppView {
            is_recording: after_game(app, game).is_recording,
            game_detected: after_game(app, game).game_detected,
            detected_game_name: after_game(app, game).detected_game_name,
            ..app
        }),
{
}

/// The window touches the settings, the field for a further game and the choice of the tab,
/// nothing else.
pub proof fn the_window_leaves_the_rest_alone(app: AppView, event: UiEvent)
    ensures
        after_ui(app, event) == (AppView {
            config: after_ui(app, event).config,
            new_game_input: after_ui(app, event).new_game_input,
            active_tab: after_ui(app, event).active_tab,
            ..app
        }),
{
}

/// A clip that was asked for stays pending until a step exports it, and only then is it done
/// with; no clip is exported that was not asked for. The same holds of screenshots.
pub proof fn requests_are_served_once(app: AppView, cycle: CycleView, event: EventView)
    ensures
        capture_step(app, cycle, event).action is ExportClip ==> app.trigger_save_clip,
        capture_step(app, cycle, event).app.trigger_save_clip == (app.trigger_save_clip
            && !(capture_step(app, cycle, event).action is ExportClip)),
        capture_step(app, cycle, event).action is TakeScreenshot ==> app.trigger_screenshot,
        capture_step(app, cycle, event).app.trigger_screenshot == (app.trigger_screenshot
            && !(capture_step(app, cycle, event).action is TakeScreenshot)),
{
}

/// The capturing thread changes the replay buffer and the pending requests, nothing else.
pub proof fn capturing_leaves_the_rest_alone(app: AppView, cycle: CycleView, event: EventView)
    ensures
        capture_step(app, cycle, event).app == (AppView {
            buffer: capture_step(app, cycle, event).app.buffer,
            trigger_save_clip: capture_step(app, cycle, event).app.trigger_save_clip,
            trigger_screenshot: capture_step(app, cycle, event).app.trigger_screenshot,
            ..app
        }),
{
}

/// While nothing is recorded, the next cycle empties the buffer, and a clip that is exported
/// in it has no frames.
pub proof fn idle_recorder_keeps_no_frames(app: AppView, cycle: CycleView)
    requires
        !app.is_recording,
        cycle.phase == CapturePhase::Idle,
    ensures
        capture_step(app, cycle, EventView::Begin).app.buffer.len() == 0,
        capture_step(app, cycle, EventView::Begin).action matches ActionView::ExportClip(job)
            ==> job.frames.len() == 0,
{
}

/// While recording, the next cycle begins with capturing a frame.
pub proof fn recording_captures_a_frame(app: AppView, cycle: CycleView)
    requires
        app.is_recording,
        cycle.phase == CapturePhase::Idle,
    ensures
        capture_step(app, cycle, EventView::Begin).action is CaptureFrame,
        capture_step(app, cycle, EventView::Begin).app == app,
{
}

/// A clip that was asked for when a frame comes in ends with that frame, and it is encoded
/// with the capture rate and the quality that were set when the cycle began.
pub proof fn clip_ends_with_the_newest_frame(app: AppView, cycle: CycleView, frame: FrameView)
    requires
        app.trigger_save_clip,
        cycle.phase == CapturePhase::Frame,
    ensures
        capture_step(app, cycle, EventView::FrameCaptured(frame)).action
            matches ActionView::ExportClip(job) && job.frames.len() > 0 && job.frames.last() == (
            frame.width,
            frame.height,
            frame.pixels,
        ) && job.fps == cycle.target_fps && job.crf == cycle.quality.crf(),
{
    newest_frame_is_kept(app.buffer, frame, cycle.replay_duration_secs);
    let buffer = recorded(app.buffer, frame, cycle.replay_duration_secs);
    assert(pictures(buffer).last() == (frame.width, frame.height, frame.pixels));
}

/// Where frames come in in the order of their capture, the buffer stays in that order, and
/// after each frame it holds exactly those of the last seconds: the replay length set when
/// the cycle began.
pub proof fn capturing_keeps_the_last_seconds(app: AppView, cycle: CycleView, event: EventView)
    requires
        in_capture_order(app.buffer),
        event matches EventView::FrameCaptured(frame) ==> in_capture_order(
            app.buffer.push(frame),
        ),
    ensures
        in_capture_order(capture_step(app, cycle, event).app.buffer),
        cycle.phase == CapturePhase::Frame ==> (event matches EventView::FrameCaptured(frame)
            ==> capture_step(app, cycle, event).app.buffer == app.buffer.push(frame).filter(
            |f: FrameView| !expired(f, frame.timestamp, cycle.replay_duration_secs),
        )),
{
    if let EventView::FrameCaptured(frame) = event {
        buffer_holds_the_last_seconds(app.buffer, frame, cycle.replay_duration_secs);
    }
}

/// A clip that is exported holds what the replay buffer holds, frame by frame, and exporting
/// it leaves the buffer as it is.
pub proof fn clip_is_a_copy_of_the_buffer(app: AppView, cycle: CycleView, event: EventView)
    ensures
        capture_step(app, cycle, event).action matches ActionView::ExportClip(job)
            ==> job.frames == pictures(capture_step(app, cycle, event).app.buffer),
{
}

/// The replay: where frames come in in the order of their capture and a clip was asked for,
/// it holds exactly the frames of the last seconds up to the frame that came in, in order.
pub proof fn clip_holds_the_last_seconds(app: AppView, cycle: CycleView, frame: FrameView)
    requires
        app.trigger_save_clip,
        cycle.phase == CapturePhase::Frame,
        in_capture_order(app.buffer.push(frame)),
    ensures
        capture_step(app, cycle, EventView::FrameCaptured(frame)).action
            matches ActionView::ExportClip(job) && job.frames == pictures(
            app.buffer.push(frame).filter(
                |f: FrameView| !expired(f, frame.timestamp, cycle.replay_duration_secs),
            ),
        ),
{
    buffer_holds_the_last_seconds(app.buffer, frame, cycle.replay_duration_secs);
}

/// Where a clip and a screenshot were both asked for, the clip is exported first and the
/// screenshot is taken next.
pub proof fn clip_goes_before_screenshot(app: AppView, cycle: CycleView, event: EventView)
    requires
        app.trigger_save_clip,
        app.trigger_screenshot,
        cycle.phase == CapturePhase::Frame,
        event is FrameCaptured || event is FrameFailed,
    ensures
        ({
            let first = capture_step(app, cycle, event);
            let second = capture_step(first.app, first.cycle, EventView::ClipTaken);
            first.action is ExportClip && second.action is TakeScreenshot
        }),
{
}

/// The event answers the action.
pub open spec fn answers(action: ActionView, event: EventView) -> bool {
    match action {
        ActionView::CaptureFrame => event is FrameCaptured || event is FrameFailed,
        ActionView::ExportClip(job) => event is ClipTaken,
        ActionView::TakeScreenshot => event is ScreenshotTaken,
        ActionView::MeasureElapsed => event is Elapsed,
        ActionView::Sleep(nanos) => event is Begin,
        ActionView::Proceed => event is Begin,
        ActionView::Ignored => false,
    }
}

/// How many answers a cycle takes at most until it is over.
pub open spec fn steps_left(phase: CapturePhase) -> nat {
    match phase {
        CapturePhase::Idle => 0,
        CapturePhase::Frame => 4,
        CapturePhase::Clip => 3,
        CapturePhase::Screenshot => 2,
        CapturePhase::Pace => 1,
    }
}

/// An answer to what was asked is never ignored, and it brings the cycle nearer to its end;
/// so every cycle ends, with a rest that is paced.
pub proof fn answers_bring_the_cycle_on(
    app: AppView,
    cycle: CycleView,
    event: EventView,
    later: AppView,
    answer: EventView,
)
    requires
        answers(capture_step(app, cycle, event).action, answer),
    ensures
        ({
            let step = capture_step(app, cycle, event);
            let next = capture_step(later, step.cycle, answer);
            &&& !(next.action is Ignored)
            &&& answer is Begin <==> step.cycle.phase == CapturePhase::Idle
            &&& !(answer is Begin) ==> steps_left(next.cycle.phase) < steps_left(step.cycle.phase)
            &&& next.cycle.phase == CapturePhase::Idle <==> next.action is Sleep
                || next.action is Proceed
        }),
{
}

/// An event that answers nothing leaves everything as it was.
pub proof fn stray_events_change_nothing(app: AppView, cycle: CycleView, event: EventView)
    requires
        capture_step(app, cycle, event).action is Ignored,
    ensures
        capture_step(app, cycle, event).app == app,
        capture_step(app, cycle, event).cycle == cycle,
{
}

/// A cycle lasts as long as its capture rate asks: the time it took and the sleep after it
/// make up the time between two frames, or it took that time already.
pub proof fn cycles_are_paced(fps: u32, elapsed: u128)
    requires
        fps > 0,
    ensures
        match pace_action(fps, elapsed) {
            ActionView::Sleep(nanos) => elapsed + nanos == frame_delay_nanos(fps) && nanos > 0,
            ActionView::Proceed => elapsed >= frame_delay_nanos(fps),
            _ => false,
        },
        frame_delay_nanos(fps) <= 1_000_000_000,
{
    assert(0 <= 1000int / fps as int <= 1000) by (nonlinear_arith)
        requires
            fps > 0,
    ;
}

/// Removing a game that was just added brings the monitored games back.
pub proof fn removing_undoes_adding(app: AppView, submit: UiEvent)
    requires
        submit matches UiEvent::SubmitGame { add_clicked, lost_focus, enter_pressed } && adds_game(
            app.new_game_input,
            add_clicked,
            lost_focus,
            enter_pressed,
        ),
        app.config.game_targets.len() <= usize::MAX,
    ensures
        after_ui(
            after_ui(app, submit),
            UiEvent::RemoveGame(app.config.game_targets.len() as usize),
        ).config == app.config,
{
    let n = app.config.game_targets.len() as int;
    let added = after_ui(app, submit).config.game_targets;
    assert(added.remove(n) =~= app.config.game_targets);
}

/// The window asks for a file exactly by an event on the library, and such an event leaves
/// the state as it is.
pub proof fn library_events_change_no_state(app: AppView, event: UiEvent)
    ensures
        !(ui_action(app, event) is Nothing) ==> after_ui(app, event) == app,
        ui_action(app, event) is Nothing <==> !(event is RefreshLibrary || event is OpenItem
            || event is DeleteItem),
{
}

/// What stands on the Library tab leaves the settings and the field for a further game alone,
/// and nothing in the window changes the list of captures but a scan.
pub proof fn tabs_keep_to_themselves(app: AppView, event: UiEvent)
    requires
        offered_on(event, app.active_tab),
    ensures
        app.active_tab == ActiveTab::Library ==> after_ui(app, event).config == app.config
            && after_ui(app, event).new_game_input == app.new_game_input,
        after_ui(app, event).library_items == app.library_items,
{
}

} // verus!
