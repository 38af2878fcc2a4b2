//! Exporting a clip: what FFmpeg is asked to do.
use vstd::prelude::*;

use crate::clock::{clip_path_at, clip_path_text, local_now, CivilTime};
use crate::replay::picture_views;
use crate::text::{decimal, decimal_string};

verus! {

/// The texts of a list of strings.
pub open spec fn texts(strings: Seq<String>) -> Seq<Seq<char>> {
    strings.map_values(|s: String| s@)
}

/// The bytes of each frame.
pub open spec fn frame_bytes(frames: Seq<(u32, u32, Seq<u8>)>) -> Seq<Seq<u8>> {
    frames.map_values(|frame: (u32, u32, Seq<u8>)| frame.2)
}

/// The frame size as FFmpeg takes it.
pub open spec fn size_text(width: u32, height: u32) -> Seq<char> {
    decimal(width as nat) + "x"@ + decimal(height as nat)
}

/// FFmpeg's arguments: raw RGBA frames of one size on standard input, at `fps` frames per
/// second, encoded as H.264 of the given rate factor into `output`.
pub open spec fn ffmpeg_args(
    width: u32,
    height: u32,
    fps: u32,
    crf: Seq<char>,
    output: Seq<char>,
) -> Seq<Seq<char>> {
    seq![
        "-y"@,
        "-f"@,
        "rawvideo"@,
        "-pix_fmt"@,
        "rgba"@,
        "-s"@,
        size_text(width, height),
        "-r"@,
        decimal(fps as nat),
        "-i"@,
        "-"@,
        "-c:v"@,
        "libx264"@,
        "-preset"@,
        "ultrafast"@,
        "-crf"@,
        crf,
        "-pix_fmt"@,
        "yuv420p"@,
        output,
    ]
}

/// A run of FFmpeg that exports a clip.
pub struct EncodePlan {
    /// The arguments of the command.
    pub args: Vec<String>,
    /// The path of the clip.
    pub output: String,
    /// The frames' bytes, in the order in which they go to standard input.
    pub chunks: Vec<Vec<u8>>,
}

/// What an [`EncodePlan`] holds.
#[verifier::ext_equal]
pub struct EncodeView {
    pub args: Seq<Seq<char>>,
    pub output: Seq<char>,
    pub chunks: Seq<Seq<u8>>,
}

impl View for EncodePlan {
    type V = EncodeView;

    open spec fn view(&self) -> EncodeView {
        EncodeView {
            args: texts(self.args@),
            output: self.output@,
            chunks: self.chunks@.map_values(|chunk: Vec<u8>| chunk@),
        }
    }
}

/// The export of `frames` at `time`: the clip has the size of the first frame, and all
/// frames go into it in order.
pub open spec fn encode_view(
    frames: Seq<(u32, u32, Seq<u8>)>,
    fps: u32,
    crf: Seq<char>,
    time: CivilTime,
) -> EncodeView {
    EncodeView {
        args: ffmpeg_args(frames[0].0, frames[0].1, fps, crf, clip_path_text(time)),
        output: clip_path_text(time),
        chunks: frame_bytes(frames),
    }
}

/// Writes out FFmpeg's arguments.
fn build_args(width: u32, height: u32, fps: u32, crf: &str, output: &str) -> (args: Vec<String>)
    ensures
        texts(args@) == ffmpeg_args(width, height, fps, crf@, output@),
{
    let size = decimal_string(width as u64).concat("x").concat(
        decimal_string(height as u64).as_str(),
    );
    let args: Vec<String> = vec![
        "-y".to_owned(),
        "-f".to_owned(),
        "rawvideo".to_owned(),
        "-pix_fmt".to_owned(),
        "rgba".to_owned(),
        "-s".to_owned(),
        size,
        "-r".to_owned(),
        decimal_string(fps as u64),
        "-i".to_owned(),
        "-".to_owned(),
        "-c:v".to_owned(),
        "libx264".to_owned(),
        "-preset".to_owned(),
        "ultrafast".to_owned(),
        "-crf".to_owned(),
        crf.to_owned(),
        "-pix_fmt".to_owned(),
        "yuv420p".to_owned(),
        output.to_owned(),
    ];
    assert(texts(args@) =~= ffmpeg_args(width, height, fps, crf@, output@));
    args
}

/// Takes the bytes out of the frames.
fn take_bytes(frames: Vec<(u32, u32, Vec<u8>)>) -> (chunks: Vec<Vec<u8>>)
    ensures
        chunks@.map_values(|chunk: Vec<u8>| chunk@) == frame_bytes(picture_views(frames@)),
        chunks@.len() == frames@.len(),
        forall|i: int| 0 <= i < frames@.len() ==> #[trigger] chunks@[i]@ == frames@[i].2@,
{
    let ghost all = frames@;
    let mut chunks: Vec<Vec<u8>> = Vec::new();
    for frame in it: frames
        invariant
            it.seq() == all,
            chunks@.len() == it.index(),
            forall|i: int| 0 <= i < chunks@.len() ==> #[trigger] chunks@[i] == all[i].2,
    {
        let (_, _, pixels) = frame;
        chunks.push(pixels);
    }
    assert(chunks@.map_values(|chunk: Vec<u8>| chunk@) =~= frame_bytes(picture_views(all)));
    chunks
}

/// Plans the export of `frames` as a clip stamped with `time`; there is nothing to export
/// where there are no frames.
pub fn encode_plan_at(
    frames: Vec<(u32, u32, Vec<u8>)>,
    fps: u32,
    crf: &str,
    time: &CivilTime,
) -> (plan: Option<EncodePlan>)
    requires
        time.valid(),
    ensures
        plan is None <==> frames@.len() == 0,
        plan matches Some(plan) ==> plan@ == encode_view(
            picture_views(frames@),
            fps,
            crf@,
            *time,
        ),
        plan matches Some(plan) ==> {
            &&& plan.chunks@.len() == frames@.len()
            &&& forall|i: int|
                0 <= i < frames@.len() ==> #[trigger] plan.chunks@[i]@ == frames@[i].2@
            &&& plan.args@.len() == 20
            &&& plan.args@[8]@ == decimal(fps as nat)
            &&& plan.args@[16]@ == crf@
            &&& plan.args@[19]@ == plan.output@
        },
{
    if frames.is_empty() {
        return None;
    }
    let width: u32 = frames[0].0;
    let height: u32 = frames[0].1;
    let output = clip_path_at(time);
    let args = build_args(width, height, fps, crf, output.as_str());
    proof {
        let told = texts(args@);
        assert(told.len() == args@.len() && told.len() == 20);
        assert(told[8] == args@[8]@ && told[16] == args@[16]@ && told[19] == args@[19]@);
    }
    let chunks = take_bytes(frames);
    Some(EncodePlan { args, output, chunks })
}

/// Plans the export of `frames` as a clip stamped with the local time.
pub fn encode_buffer_to_mp4(
    frames: Vec<(u32, u32, Vec<u8>)>,
    fps: u32,
    crf: &str,
) -> (plan: Option<EncodePlan>)
    ensures
        plan is None <==> frames@.len() == 0,
        plan matches Some(plan) ==> exists|time: CivilTime|
            time.valid() && plan@ == #[trigger] encode_view(
                picture_views(frames@),
                fps,
                crf@,
                time,
            ),
        plan matches Some(plan) ==> {
            &&& plan.chunks@.len() == frames@.len()
            &&& forall|i: int|
                0 <= i < frames@.len() ==> #[trigger] plan.chunks@[i]@ == frames@[i].2@
            &&& plan.args@.len() == 20
            &&& plan.args@[8]@ == decimal(fps as nat)
            &&& plan.args@[16]@ == crf@
            &&& plan.args@[19]@ == plan.output@
        },
{
    if frames.is_empty() {
        return None;
    }
    let now = local_now();
    encode_plan_at(frames, fps, crf, &now)
}

/// Where an export stands.
#[derive(Clone, Copy, Debug, PartialEq, Eq, Structural)]
pub enum ExportPhase {
    /// FFmpeg is being started.
    Starting,
    /// The frame at this position is being written.
    Writing(usize),
    /// FFmpeg's input is being closed.
    Closing,
    /// FFmpeg is at its end.
    Waiting,
    /// The export is over.
    Done,
}

/// What happened to the last thing that an export asked for.
#[derive(Clone, Copy, Debug, PartialEq, Eq, Structural)]
pub enum ExportEvent {
    /// FFmpeg runs and takes input.
    Started,
    /// FFmpeg runs, but there is no way to its input.
    StartedWithoutInput,
    /// FFmpeg could not be started.
    StartFailed,
    /// The frame was written.
    Written,
    /// The frame could not be written.
    WriteFailed,
    /// The input is closed.
    Closed,
    /// FFmpeg has ended, or could not be waited for.
    Waited,
}

/// What an export asks for next, and how it is answered.
#[derive(Clone, Copy, Debug, PartialEq, Eq, Structural)]
pub enum ExportAction {
    /// Write the bytes of the frame at this position; answer `Written` or `WriteFailed`.
    Write(usize),
    /// Close FFmpeg's input; answer `Closed`.
    Close,
    /// Wait for FFmpeg to end; answer `Waited`.
    Wait,
    /// Tell that the clip was exported, and end.
    Report,
    /// Tell that FFmpeg could not be started, and end.
    Stop,
    /// The event answers nothing that was asked; it had no effect.
    Ignored,
}

/// One step of an export of `chunks` frames: they are written in order until one fails; then
/// the input is closed, FFmpeg is waited for, and the export is reported.
pub open spec fn export_next(phase: ExportPhase, event: ExportEvent, chunks: usize) -> (
    ExportPhase,
    ExportAction,
) {
    match (phase, event) {
        (ExportPhase::Starting, ExportEvent::StartFailed) => (
            ExportPhase::Done,
            ExportAction::Stop,
        ),
        (ExportPhase::Starting, ExportEvent::StartedWithoutInput) => (
            ExportPhase::Waiting,
            ExportAction::Wait,
        ),
        (ExportPhase::Starting, ExportEvent::Started) => if chunks > 0 {
            (ExportPhase::Writing(0), ExportAction::Write(0))
        } else {
            (ExportPhase::Closing, ExportAction::Close)
        },
        (ExportPhase::Writing(k), ExportEvent::Written) => if k + 1 < chunks {
            (ExportPhase::Writing((k + 1) as usize), ExportAction::Write((k + 1) as usize))
        } else {
            (ExportPhase::Closing, ExportAction::Close)
        },
        (ExportPhase::Writing(k), ExportEvent::WriteFailed) => (
            ExportPhase::Closing,
            ExportAction::Close,
        ),
        (ExportPhase::Closing, ExportEvent::Closed) => (ExportPhase::Waiting, ExportAction::Wait),
        (ExportPhase::Waiting, ExportEvent::Waited) => (ExportPhase::Done, ExportAction::Report),
        _ => (phase, ExportAction::Ignored),
    }
}

/// One step of an export of `chunks` frames: takes what happened and says what is to be done
/// next.
pub fn export_step(phase: ExportPhase, event: ExportEvent, chunks: usize) -> (next: (
    ExportPhase,
    ExportAction,
))
    ensures
        next == export_next(phase, event, chunks),
{
    match (phase, event) {
        (ExportPhase::Starting, ExportEvent::StartFailed) => (
            ExportPhase::Done,
            ExportAction::Stop,
        ),
        (ExportPhase::Starting, ExportEvent::StartedWithoutInput) => (
            ExportPhase::Waiting,
            ExportAction::Wait,
        ),
        (ExportPhase::Starting, ExportEvent::Started) => {
            if chunks > 0 {
                (ExportPhase::Writing(0), ExportAction::Write(0))
            } else {
                (ExportPhase::Closing, ExportAction::Close)
            }
        },
        (ExportPhase::Writing(k), ExportEvent::Written) => {
            if k < chunks && chunks - k > 1 {
                (ExportPhase::Writing(k + 1), ExportAction::Write(k + 1))
            } else {
                (ExportPhase::Closing, ExportAction::Close)
            }
        },
        (ExportPhase::Writing(_), ExportEvent::WriteFailed) => (
            ExportPhase::Closing,
            ExportAction::Close,
        ),
        (ExportPhase::Closing, ExportEvent::Closed) => (ExportPhase::Waiting, ExportAction::Wait),
        (ExportPhase::Waiting, ExportEvent::Waited) => (ExportPhase::Done, ExportAction::Report),
        _ => (phase, ExportAction::Ignored),
    }
}

/// Where an export stands after the events.
pub open spec fn export_phase(events: Seq<ExportEvent>, chunks: usize) -> ExportPhase
    decreases events.len(),
{
    if events.len() == 0 {
        ExportPhase::Starting
    } else {
        export_next(export_phase(events.drop_last(), chunks), events.last(), chunks).0
    }
}

/// The positions of the frames that an export asked to write in the course of the events.
pub open spec fn export_writes(events: Seq<ExportEvent>, chunks: usize) -> Seq<usize>
    decreases events.len(),
{
    if events.len() == 0 {
        Seq::empty()
    } else {
        let before = export_writes(events.drop_last(), chunks);
        match export_next(export_phase(events.drop_last(), chunks), events.last(), chunks).1 {
            ExportAction::Write(k) => before.push(k),
            _ => before,
        }
    }
}

/// Whatever happens, an export asks for the frames in order from the first, each once, and
/// for none that is not there.
pub proof fn export_writes_in_order(events: Seq<ExportEvent>, chunks: usize)
    ensures
        export_writes(events, chunks).len() <= chunks,
        forall|i: int|
            0 <= i < export_writes(events, chunks).len() ==> #[trigger] export_writes(
                events,
                chunks,
            )[i] == i,
        export_phase(events, chunks) is Starting ==> export_writes(events, chunks).len() == 0,
        export_phase(events, chunks) matches ExportPhase::Writing(k) ==> export_writes(
            events,
            chunks,
        ).len() == k + 1,
    decreases events.len(),
{
    if events.len() > 0 {
        export_writes_in_order(events.drop_last(), chunks);
    }
}

/// Nothing goes wrong in the course of the events.
pub open spec fn all_goes_well(events: Seq<ExportEvent>) -> bool {
    forall|i: int|
        0 <= i < events.len() ==> !(#[trigger] events[i] is StartFailed)
            && !(events[i] is StartedWithoutInput) && !(events[i] is WriteFailed)
}

/// Where nothing goes wrong, an export asks for all frames before it closes FFmpeg's input.
pub proof fn all_frames_are_written(events: Seq<ExportEvent>, chunks: usize)
    requires
        all_goes_well(events),
        ({
            let phase = export_phase(events, chunks);
            phase is Closing || phase is Waiting || phase is Done
        }),
    ensures
        export_writes(events, chunks).len() == chunks,
    decreases events.len(),
{
    let before = events.drop_last();
    assert(all_goes_well(before)) by {
        assert(forall|i: int| 0 <= i < before.len() ==> #[trigger] before[i] == events[i]);
    }
    assert(events.last() == events[events.len() - 1]);
    export_writes_in_order(before, chunks);
    let phase = export_phase(before, chunks);
    if phase is Closing || phase is Waiting || phase is Done {
        all_frames_are_written(before, chunks);
    }
}

/// A failed start ends the export at once, with nothing written. Nothing else ends it without
/// FFmpeg having been waited for.
pub proof fn only_a_failed_start_stops_an_export(
    phase: ExportPhase,
    event: ExportEvent,
    chunks: usize,
)
    ensures
        export_next(phase, event, chunks).1 is Stop <==> phase is Starting && event is StartFailed,
        export_next(ExportPhase::Starting, ExportEvent::StartFailed, chunks) == (
            ExportPhase::Done,
            ExportAction::Stop,
        ),
        export_next(phase, event, chunks).0 is Done && !(phase is Done) ==> export_next(
            phase,
            event,
            chunks,
        ).1 is Stop || (phase is Waiting && event is Waited && export_next(
            phase,
            event,
            chunks,
        ).1 is Report),
{
}

/// Nothing is written after a failed write, and nothing once the input is being closed.
pub proof fn a_failed_write_ends_the_writing(
    phase: ExportPhase,
    k: usize,
    event: ExportEvent,
    chunks: usize,
)
    ensures
        export_next(ExportPhase::Writing(k), ExportEvent::WriteFailed, chunks) == (
            ExportPhase::Closing,
            ExportAction::Close,
        ),
        phase is Closing || phase is Waiting || phase is Done ==> {
            let next = export_next(phase, event, chunks);
            !(next.1 is Write) && (next.0 is Closing || next.0 is Waiting || next.0 is Done)
        },
{
}

/// Once the last frame is written, or one has failed, the input is closed, FFmpeg is waited
/// for and the export is reported.
pub proof fn a_started_export_is_waited_for_and_reported(k: usize, event: ExportEvent, chunks: usize)
    requires
        event is WriteFailed || (event is Written && k + 1 >= chunks),
    ensures
        ({
            let closing = export_next(ExportPhase::Writing(k), event, chunks);
            let waiting = export_next(closing.0, ExportEvent::Closed, chunks);
            let done = export_next(waiting.0, ExportEvent::Waited, chunks);
            &&& closing.1 is Close
            &&& waiting.1 is Wait
            &&& done == (ExportPhase::Done, ExportAction::Report)
        }),
{
}

} // verus!
