//! The capture cycle: what the capturing thread does, step by step.
//!
//! The thread performs the action it was given and answers with an event. One cycle captures
//! a frame while recording, exports a clip if one was asked for, takes a screenshot if one
//! was asked for, and waits until the next frame is due.
use vstd::prelude::*;

use crate::app::AppView;
use crate::quality::VideoQuality;
use crate::replay::{FrameView, StoredFrame, picture_views, pictures, recorded};

verus! {

/// What the capturing thread is doing.
#[derive(Clone, Copy, Debug, PartialEq, Eq, Structural)]
pub enum CapturePhase {
    /// Between two cycles.
    Idle,
    /// Capturing a frame for the replay buffer.
    Frame,
    /// Handing a clip over to the encoder.
    Clip,
    /// Taking a screenshot.
    Screenshot,
    /// Measuring how long the cycle has taken.
    Pace,
}

/// A cycle of the capturing thread, with the settings it began with.
pub struct CaptureCycle {
    phase: CapturePhase,
    replay_duration_secs: u64,
    target_fps: u32,
    quality: VideoQuality,
}

/// What a [`CaptureCycle`] holds.
#[verifier::ext_equal]
pub struct CycleView {
    pub phase: CapturePhase,
    pub replay_duration_secs: u64,
    pub target_fps: u32,
    pub quality: VideoQuality,
}

impl View for CaptureCycle {
    type V = CycleView;

    closed spec fn view(&self) -> CycleView {
        CycleView {
            phase: self.phase,
            replay_duration_secs: self.replay_duration_secs,
            target_fps: self.target_fps,
            quality: self.quality,
        }
    }
}

impl CycleView {
    /// The capture rate is positive once a cycle has begun.
    pub open spec fn wf(self) -> bool {
        self.phase != CapturePhase::Idle ==> self.target_fps > 0
    }
}

/// A clip to be exported.
pub struct ClipJob {
    /// Width, height and RGBA bytes of each frame.
    pub frames: Vec<(u32, u32, Vec<u8>)>,
    pub fps: u32,
    pub crf: String,
}

/// What a [`ClipJob`] holds.
#[verifier::ext_equal]
pub struct JobView {
    pub frames: Seq<(u32, u32, Seq<u8>)>,
    pub fps: u32,
    pub crf: Seq<char>,
}

impl View for ClipJob {
    type V = JobView;

    open spec fn view(&self) -> JobView {
        JobView { frames: picture_views(self.frames@), fps: self.fps, crf: self.crf@ }
    }
}

/// What the capturing thread reports.
pub enum CaptureEvent {
    /// A cycle begins.
    Begin,
    /// The frame was captured.
    FrameCaptured(StoredFrame),
    /// The frame could not be captured.
    FrameFailed,
    /// The clip was handed over.
    ClipTaken,
    /// The screenshot was taken, or could not be.
    ScreenshotTaken,
    /// This many nanoseconds have passed since the cycle began.
    Elapsed(u128),
}

/// What a [`CaptureEvent`] says.
pub enum EventView {
    Begin,
    FrameCaptured(FrameView),
    FrameFailed,
    ClipTaken,
    ScreenshotTaken,
    Elapsed(u128),
}

impl View for CaptureEvent {
    type V = EventView;

    open spec fn view(&self) -> EventView {
        match *self {
            CaptureEvent::Begin => EventView::Begin,
            CaptureEvent::FrameCaptured(frame) => EventView::FrameCaptured(frame@),
            CaptureEvent::FrameFailed => EventView::FrameFailed,
            CaptureEvent::ClipTaken => EventView::ClipTaken,
            CaptureEvent::ScreenshotTaken => EventView::ScreenshotTaken,
            CaptureEvent::Elapsed(nanos) => EventView::Elapsed(nanos),
        }
    }
}

/// What the capturing thread is to do next, and how it answers.
pub enum CaptureAction {
    /// Capture the screen; answer `FrameCaptured` or `FrameFailed`.
    CaptureFrame,
    /// Hand the clip over to the encoder without waiting for it; answer `ClipTaken`.
    ExportClip(ClipJob),
    /// Capture the screen and save the picture; answer `ScreenshotTaken`.
    TakeScreenshot,
    /// Measure the time since the cycle began; answer `Elapsed`.
    MeasureElapsed,
    /// Sleep for this many nanoseconds; answer `Begin`.
    Sleep(u64),
    /// Go on at once; answer `Begin`.
    Proceed,
    /// The event answers nothing that was asked; it had no effect.
    Ignored,
}

/// What a [`CaptureAction`] asks for.
#[verifier::ext_equal]
pub enum ActionView {
    CaptureFrame,
    ExportClip(JobView),
    TakeScreenshot,
    MeasureElapsed,
    Sleep(u64),
    Proceed,
    Ignored,
}

impl View for CaptureAction {
    type V = ActionView;

    open spec fn view(&self) -> ActionView {
        match *self {
            CaptureAction::CaptureFrame => ActionView::CaptureFrame,
            CaptureAction::ExportClip(job) => ActionView::ExportClip(job@),
            CaptureAction::TakeScreenshot => ActionView::TakeScreenshot,
            CaptureAction::MeasureElapsed => ActionView::MeasureElapsed,
            CaptureAction::Sleep(nanos) => ActionView::Sleep(nanos),
            CaptureAction::Proceed => ActionView::Proceed,
            CaptureAction::Ignored => ActionView::Ignored,
        }
    }
}

/// The outcome of a step.
#[verifier::ext_equal]
pub struct StepView {
    pub app: AppView,
    pub cycle: CycleView,
    pub action: ActionView,
}

/// The time between two frames in nanoseconds: whole milliseconds.
pub open spec fn frame_delay_nanos(fps: u32) -> int {
    1000int / fps as int * 1_000_000
}

/// What is left to do in a cycle of which `elapsed` nanoseconds have passed.
pub open spec fn pace_action(fps: u32, elapsed: u128) -> ActionView {
    if elapsed < frame_delay_nanos(fps) {
        ActionView::Sleep((frame_delay_nanos(fps) - elapsed) as u64)
    } else {
        ActionView::Proceed
    }
}

/// The clip that is exported from a buffer in a cycle.
pub open spec fn clip_job(buffer: Seq<FrameView>, cycle: CycleView) -> JobView {
    JobView { frames: pictures(buffer), fps: cycle.target_fps, crf: cycle.quality.crf() }
}

/// From the screenshot on: it is taken if it was asked for.
pub open spec fn screenshot_stage_step(app: AppView, cycle: CycleView) -> StepView {
    if app.trigger_screenshot {
        StepView {
            app: AppView { trigger_screenshot: false, ..app },
            cycle: CycleView { phase: CapturePhase::Screenshot, ..cycle },
            action: ActionView::TakeScreenshot,
        }
    } else {
        StepView {
            app,
            cycle: CycleView { phase: CapturePhase::Pace, ..cycle },
            action: ActionView::MeasureElapsed,
        }
    }
}

/// From the clip on: it is exported if it was asked for.
pub open spec fn clip_stage_step(app: AppView, cycle: CycleView) -> StepView {
    if app.trigger_save_clip {
        StepView {
            app: AppView { trigger_save_clip: false, ..app },
            cycle: CycleView { phase: CapturePhase::Clip, ..cycle },
            action: ActionView::ExportClip(clip_job(app.buffer, cycle)),
        }
    } else {
        screenshot_stage_step(app, cycle)
    }
}

/// A cycle that begins with the settings as they are now. While recording, a frame is
/// captured; otherwise the buffer is emptied.
pub open spec fn begin_step(app: AppView) -> StepView {
    let cycle = CycleView {
        phase: CapturePhase::Frame,
        replay_duration_secs: app.config.replay_duration_secs,
        target_fps: app.config.target_fps,
        quality: app.config.quality,
    };
    if app.is_recording {
        StepView { app, cycle, action: ActionView::CaptureFrame }
    } else {
        clip_stage_step(AppView { buffer: Seq::empty(), ..app }, cycle)
    }
}

/// One step of the capturing thread.
pub open spec fn capture_step(app: AppView, cycle: CycleView, event: EventView) -> StepView {
    match (cycle.phase, event) {
        (CapturePhase::Idle, EventView::Begin) => begin_step(app),
        (CapturePhase::Frame, EventView::FrameCaptured(frame)) => clip_stage_step(
            AppView { buffer: recorded(app.buffer, frame, cycle.replay_duration_secs), ..app },
            cycle,
        ),
        (CapturePhase::Frame, EventView::FrameFailed) => clip_stage_step(app, cycle),
        (CapturePhase::Clip, EventView::ClipTaken) => screenshot_stage_step(app, cycle),
        (CapturePhase::Screenshot, EventView::ScreenshotTaken) => StepView {
            app,
            cycle: CycleView { phase: CapturePhase::Pace, ..cycle },
            action: ActionView::MeasureElapsed,
        },
        (CapturePhase::Pace, EventView::Elapsed(nanos)) => StepView {
            app,
            cycle: CycleView { phase: CapturePhase::Idle, ..cycle },
            action: pace_action(cycle.target_fps, nanos),
        },
        _ => StepView { app, cycle, action: ActionView::Ignored },
    }
}

impl CaptureCycle {
    /// The cycle can be in this state.
    pub open spec fn wf(self) -> bool {
        self@.wf()
    }

    /// A thread that has not begun its first cycle. Its settings are blank until it begins
    /// one.
    pub fn new() -> (cycle: Self)
        ensures
            cycle.wf(),
            cycle@ == (CycleView {
                phase: CapturePhase::Idle,
                replay_duration_secs: 0,
                target_fps: 0,
                quality: VideoQuality::Medium,
            }),
    {
        CaptureCycle {
            phase: CapturePhase::Idle,
            replay_duration_secs: 0,
            target_fps: 0,
            quality: VideoQuality::Medium,
        }
    }

    /// What the thread is doing.
    pub fn phase(&self) -> (phase: CapturePhase)
        ensures
            phase == self@.phase,
    {
        self.phase
    }

    /// How many seconds of frames the cycle keeps.
    pub(crate) fn replay_duration_secs(&self) -> (secs: u64)
        ensures
            secs == self@.replay_duration_secs,
    {
        self.replay_duration_secs
    }

    /// The capture rate of the cycle.
    pub(crate) fn target_fps(&self) -> (fps: u32)
        ensures
            fps == self@.target_fps,
    {
        self.target_fps
    }

    /// The quality profile of the cycle.
    pub(crate) fn quality(&self) -> (quality: VideoQuality)
        ensures
            quality == self@.quality,
    {
        self.quality
    }

    /// Goes on to another phase.
    pub(crate) fn enter(&mut self, phase: CapturePhase)
        ensures
            final(self)@ == (CycleView { phase, ..old(self)@ }),
    {
        self.phase = phase;
    }

    /// Begins with the given settings.
    pub(crate) fn begin(&mut self, replay_duration_secs: u64, target_fps: u32, quality: VideoQuality)
        ensures
            final(self)@ == (CycleView {
                phase: CapturePhase::Frame,
                replay_duration_secs,
                target_fps,
                quality,
            }),
    {
        self.phase = CapturePhase::Frame;
        self.replay_duration_secs = replay_duration_secs;
        self.target_fps = target_fps;
        self.quality = quality;
    }
}

/// Decides how long to rest in a cycle of which `elapsed` nanoseconds have passed.
pub fn rest(fps: u32, elapsed: u128) -> (action: CaptureAction)
    requires
        fps > 0,
    ensures
        action@ == pace_action(fps, elapsed),
        elapsed < 1000int / fps as int * 1_000_000 ==> (action matches CaptureAction::Sleep(nanos)
            && elapsed + nanos == 1000int / fps as int * 1_000_000),
        elapsed >= 1000int / fps as int * 1_000_000 ==> action is Proceed,
{
    let delay: u64 = 1000 / fps as u64 * 1_000_000;
    assert(0 <= 1000int / fps as int <= 1000) by (nonlinear_arith)
        requires
            fps > 0,
    ;
    if elapsed < delay as u128 {
        CaptureAction::Sleep(delay - elapsed as u64)
    } else {
        CaptureAction::Proceed
    }
}

/// Finds the primary monitor: the first that is marked as such.
pub fn primary_monitor(primary: &Vec<bool>) -> (at: Option<usize>)
    ensures
        match at {
            Some(i) => i < primary@.len() && primary@[i as int] && forall|j: int|
                0 <= j < i ==> !#[trigger] primary@[j],
            None => forall|j: int| 0 <= j < primary@.len() ==> !#[trigger] primary@[j],
        },
{
    let mut i: usize = 0;
    while i < primary.len()
        invariant
            i <= primary@.len(),
            forall|j: int| 0 <= j < i ==> !#[trigger] primary@[j],
        decreases primary@.len() - i,
    {
        if primary[i] {
            return Some(i);
        }
        i += 1;
    }
    None
}

} // verus!
