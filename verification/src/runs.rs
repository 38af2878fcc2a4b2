//! What holds over any course of events.
use vstd::prelude::*;

use crate::app::{AppView, UiEvent, after_game, after_key, after_ui, initial_state};
use crate::capture::{CapturePhase, CycleView, EventView, capture_step};
use crate::config::{ConfigView, Key};
use crate::gallery::{ItemView, listing};
use crate::laws::{every_change_keeps_the_state_wf, initial_state_is_wf};
use crate::replay::{
    FrameView, buffer_holds_the_last_seconds, eviction_drops_an_expired_prefix, expired,
    in_capture_order, recorded,
};

verus! {

/// Something that happens to the recorder.
pub enum Change {
    /// A key is pressed.
    Pressed(Key),
    /// A look at the processes shows this game, or none.
    Looked(Option<Seq<char>>),
    /// Something happens in the window.
    Window(UiEvent),
    /// A scan of the captures directory finds these entries.
    Scanned(Seq<ItemView>),
    /// The capturing thread reports.
    Reported(EventView),
}

/// The recorder and its capturing thread.
#[verifier::ext_equal]
pub struct RunView {
    pub app: AppView,
    pub cycle: CycleView,
}

/// The recorder and its capturing thread after a change.
pub open spec fn after_change(run: RunView, change: Change) -> RunView {
    match change {
        Change::Pressed(key) => RunView { app: after_key(run.app, key), ..run },
        Change::Looked(game) => RunView { app: after_game(run.app, game), ..run },
        Change::Window(event) => RunView { app: after_ui(run.app, event), ..run },
        Change::Scanned(entries) => RunView {
            app: AppView { library_items: listing(entries), ..run.app },
            ..run
        },
        Change::Reported(event) => {
            let step = capture_step(run.app, run.cycle, event);
            RunView { app: step.app, cycle: step.cycle }
        },
    }
}

/// The recorder and its capturing thread after the changes, one by one.
pub open spec fn after_changes(start: RunView, changes: Seq<Change>) -> RunView
    decreases changes.len(),
{
    if changes.len() == 0 {
        start
    } else {
        after_change(after_changes(start, changes.drop_last()), changes.last())
    }
}

/// The change can happen: a position in the window exists, and a game has a name.
pub open spec fn can_happen(run: RunView, change: Change) -> bool {
    match change {
        Change::Looked(Some(name)) => name.len() > 0,
        Change::Window(event) => event.applies_to(run.app),
        _ => true,
    }
}

/// Each of the changes can happen when its turn comes.
pub open spec fn can_all_happen(start: RunView, changes: Seq<Change>) -> bool
    decreases changes.len(),
{
    changes.len() > 0 ==> {
        &&& can_all_happen(start, changes.drop_last())
        &&& can_happen(after_changes(start, changes.drop_last()), changes.last())
    }
}

/// The recorder when it starts, with what a scan of the captures directory found; its
/// capturing thread has not begun.
pub open spec fn at_start(run: RunView, entries: Seq<ItemView>) -> bool {
    run.app == initial_state(entries) && run.cycle.phase == CapturePhase::Idle
}

/// Whatever happens to the recorder from its start on, its settings stay in range, and a game
/// is named exactly while one is detected.
pub proof fn every_run_stays_wf(start: RunView, entries: Seq<ItemView>, changes: Seq<Change>)
    requires
        at_start(start, entries),
        can_all_happen(start, changes),
    ensures
        after_changes(start, changes).app.wf(),
        after_changes(start, changes).cycle.wf(),
    decreases changes.len(),
{
    initial_state_is_wf(entries);
    if changes.len() > 0 {
        every_run_stays_wf(start, entries, changes.drop_last());
        let run = after_changes(start, changes.drop_last());
        let key = if let Change::Pressed(key) = changes.last() { key } else { Key::F9 };
        let game = if let Change::Looked(game) = changes.last() { game } else { None };
        let ui = if let Change::Window(event) = changes.last() {
            event
        } else {
            UiEvent::RefreshLibrary
        };
        let event = if let Change::Reported(event) = changes.last() {
            event
        } else {
            EventView::Begin
        };
        every_change_keeps_the_state_wf(run.app, key, game, ui, run.cycle, event);
    }
}

/// The settings have the same hotkeys.
pub open spec fn same_hotkeys(a: ConfigView, b: ConfigView) -> bool {
    &&& a.clip_hotkey == b.clip_hotkey
    &&& a.record_toggle_hotkey == b.record_toggle_hotkey
    &&& a.screenshot_hotkey == b.screenshot_hotkey
}

/// Nothing that happens changes a hotkey.
pub proof fn no_change_touches_the_hotkeys(
    app: AppView,
    key: Key,
    game: Option<Seq<char>>,
    ui: UiEvent,
    cycle: CycleView,
    event: EventView,
)
    ensures
        same_hotkeys(after_key(app, key).config, app.config),
        same_hotkeys(after_game(app, game).config, app.config),
        same_hotkeys(after_ui(app, ui).config, app.config),
        same_hotkeys(capture_step(app, cycle, event).app.config, app.config),
{
}

/// Whatever happens, the hotkeys stay as they are.
pub proof fn every_run_keeps_the_hotkeys(start: RunView, changes: Seq<Change>)
    ensures
        same_hotkeys(after_changes(start, changes).app.config, start.app.config),
    decreases changes.len(),
{
    if changes.len() > 0 {
        every_run_keeps_the_hotkeys(start, changes.drop_last());
    }
}

/// From the recorder's start on, a clip is asked for with F9, the recording is switched with
/// F10 and a screenshot is asked for with F11, as the window says.
pub proof fn hotkeys_are_those_shown(start: RunView, entries: Seq<ItemView>, changes: Seq<Change>)
    requires
        at_start(start, entries),
    ensures
        after_changes(start, changes).app.config.clip_hotkey == Key::F9,
        after_changes(start, changes).app.config.record_toggle_hotkey == Key::F10,
        after_changes(start, changes).app.config.screenshot_hotkey == Key::F11,
{
    every_run_keeps_the_hotkeys(start, changes);
}

/// The times of the frames that the capturing thread reports in the course of the changes.
pub open spec fn capture_times(changes: Seq<Change>) -> Seq<int>
    decreases changes.len(),
{
    if changes.len() == 0 {
        Seq::empty()
    } else {
        let before = capture_times(changes.drop_last());
        match changes.last() {
            Change::Reported(EventView::FrameCaptured(frame)) => before.push(frame.timestamp),
            _ => before,
        }
    }
}

/// The times never decrease.
pub open spec fn never_decreasing(times: Seq<int>) -> bool {
    forall|i: int, j: int| 0 <= i <= j < times.len() ==> times[i] <= times[j]
}

/// Where the clock never goes back, whatever else happens, the buffer that was empty at first
/// stays in the order of capture, and no frame in it is later than the last capture.
pub proof fn every_run_keeps_capture_order(start: RunView, changes: Seq<Change>)
    requires
        start.app.buffer.len() == 0,
        never_decreasing(capture_times(changes)),
    ensures
        in_capture_order(after_changes(start, changes).app.buffer),
        forall|i: int|
            0 <= i < after_changes(start, changes).app.buffer.len() ==> capture_times(changes).len()
                > 0 && #[trigger] after_changes(start, changes).app.buffer[i].timestamp
                <= capture_times(changes).last(),
    decreases changes.len(),
{
    if changes.len() > 0 {
        let before = changes.drop_last();
        let times = capture_times(changes);
        let earlier = capture_times(before);
        assert(forall|i: int| 0 <= i < earlier.len() ==> #[trigger] earlier[i] == times[i]);
        every_run_keeps_capture_order(start, before);
        let run = after_changes(start, before);
        let buffer = run.app.buffer;
        let after = after_changes(start, changes).app.buffer;
        match changes.last() {
            Change::Reported(EventView::FrameCaptured(frame)) => {
                let secs = run.cycle.replay_duration_secs;
                let all = buffer.push(frame);
                assert forall|i: int| 0 <= i < buffer.len() implies #[trigger] buffer[i].timestamp
                    <= frame.timestamp by {
                    assert(times[earlier.len() - 1] <= times[times.len() - 1]);
                }
                assert(in_capture_order(all));
                buffer_holds_the_last_seconds(buffer, frame, secs);
                let dropped = eviction_drops_an_expired_prefix(all, frame.timestamp, secs);
                assert(forall|i: int|
                    0 <= i < recorded(buffer, frame, secs).len() ==> #[trigger] recorded(
                        buffer,
                        frame,
                        secs,
                    )[i] == all[dropped + i]);
                assert(after == buffer || after == recorded(buffer, frame, secs));
            },
            _ => {
                assert(times == earlier);
                assert(after == buffer || after.len() == 0);
            },
        }
    }
}

/// Where the clock never goes back, whatever else happens, each frame that is recorded leaves
/// in the buffer exactly those of the last seconds.
pub proof fn every_run_keeps_the_last_seconds(
    start: RunView,
    changes: Seq<Change>,
    frame: FrameView,
)
    requires
        start.app.buffer.len() == 0,
        never_decreasing(
            capture_times(changes.push(Change::Reported(EventView::FrameCaptured(frame)))),
        ),
        after_changes(start, changes).cycle.phase == CapturePhase::Frame,
    ensures
        ({
            let run = after_changes(start, changes);
            let all = run.app.buffer.push(frame);
            let secs = run.cycle.replay_duration_secs;
            &&& in_capture_order(all)
            &&& after_change(run, Change::Reported(EventView::FrameCaptured(frame))).app.buffer
                == all.filter(|f: FrameView| !expired(f, frame.timestamp, secs))
        }),
{
    let longer = changes.push(Change::Reported(EventView::FrameCaptured(frame)));
    assert(longer.drop_last() =~= changes);
    let times = capture_times(longer);
    let earlier = capture_times(changes);
    assert(times == earlier.push(frame.timestamp));
    assert(forall|i: int| 0 <= i < earlier.len() ==> #[trigger] earlier[i] == times[i]);
    every_run_keeps_capture_order(start, changes);
    let run = after_changes(start, changes);
    assert forall|i: int| 0 <= i < run.app.buffer.len() implies #[trigger]
        run.app.buffer[i].timestamp <= frame.timestamp by {
        assert(times[earlier.len() - 1] <= times[times.len() - 1]);
    }
    buffer_holds_the_last_seconds(run.app.buffer, frame, run.cycle.replay_duration_secs);
}

} // verus!
