use lightsnip::clock::CivilTime;
use lightsnip::encode::{
    encode_buffer_to_mp4, encode_plan_at, export_step, ExportAction, ExportEvent, ExportPhase,
};

fn noon() -> CivilTime {
    CivilTime { year: 2025, month: 6, day: 1, hour: 12, minute: 0, second: 30 }
}

#[test]
fn nothing_to_encode() {
    assert!(encode_plan_at(Vec::new(), 30, "23", &noon()).is_none());
    assert!(encode_buffer_to_mp4(Vec::new(), 30, "23").is_none());
}

#[test]
fn arguments_of_ffmpeg() {
    let frames = vec![(1920, 1080, vec![1u8, 2]), (1920, 1080, vec![3u8, 4])];
    let plan = encode_plan_at(frames, 60, "18", &noon()).unwrap();
    assert_eq!(
        plan.args,
        vec![
            "-y", "-f", "rawvideo", "-pix_fmt", "rgba", "-s", "1920x1080", "-r", "60", "-i", "-",
            "-c:v", "libx264", "-preset", "ultrafast", "-crf", "18", "-pix_fmt", "yuv420p",
            "captures/clip_20250601_120030.mp4",
        ]
    );
    assert_eq!(plan.output, "captures/clip_20250601_120030.mp4");
    assert_eq!(plan.chunks, vec![vec![1u8, 2], vec![3u8, 4]]);
}

#[test]
fn the_first_frame_gives_the_size() {
    let frames = vec![(4, 3, vec![1u8]), (800, 600, vec![2u8]), (0, 0, Vec::new())];
    let plan = encode_plan_at(frames, 15, "28", &noon()).unwrap();
    assert_eq!(plan.args[6], "4x3");
    assert_eq!(plan.args[8], "15");
    assert_eq!(plan.chunks, vec![vec![1u8], vec![2u8], Vec::new()]);
}

#[test]
fn the_clip_is_stamped_with_the_local_time() {
    let stamp = || format!("{}", chrono::Local::now().format("%Y%m%d_%H%M%S"));
    let before = format!("captures/clip_{}.mp4", stamp());
    let plan = encode_buffer_to_mp4(vec![(1, 1, vec![0u8; 4])], 30, "23").unwrap();
    let after = format!("captures/clip_{}.mp4", stamp());
    assert!(before <= plan.output && plan.output <= after);
    assert_eq!(plan.args[19], plan.output);
}

/// Runs an export through the events, and returns what it asked for.
fn run_export(events: &[ExportEvent], chunks: usize) -> Vec<ExportAction> {
    let mut phase = ExportPhase::Starting;
    let mut actions = Vec::new();
    for event in events {
        let (next, action) = export_step(phase, *event, chunks);
        phase = next;
        actions.push(action);
    }
    actions
}

#[test]
fn frames_are_written_in_order() {
    let events = [
        ExportEvent::Started,
        ExportEvent::Written,
        ExportEvent::Written,
        ExportEvent::Written,
        ExportEvent::Closed,
        ExportEvent::Waited,
    ];
    assert_eq!(
        run_export(&events, 3),
        vec![
            ExportAction::Write(0),
            ExportAction::Write(1),
            ExportAction::Write(2),
            ExportAction::Close,
            ExportAction::Wait,
            ExportAction::Report,
        ]
    );
}

#[test]
fn a_failed_start_stops_the_export() {
    let events = [ExportEvent::StartFailed, ExportEvent::Written, ExportEvent::Waited];
    assert_eq!(
        run_export(&events, 3),
        vec![ExportAction::Stop, ExportAction::Ignored, ExportAction::Ignored]
    );
}

#[test]
fn a_failed_write_ends_the_writing() {
    let events = [
        ExportEvent::Started,
        ExportEvent::WriteFailed,
        ExportEvent::Written,
        ExportEvent::Closed,
        ExportEvent::Waited,
    ];
    assert_eq!(
        run_export(&events, 3),
        vec![
            ExportAction::Write(0),
            ExportAction::Close,
            ExportAction::Ignored,
            ExportAction::Wait,
            ExportAction::Report,
        ]
    );
}

#[test]
fn exports_without_input_or_frames() {
    assert_eq!(
        run_export(&[ExportEvent::StartedWithoutInput, ExportEvent::Waited], 3),
        vec![ExportAction::Wait, ExportAction::Report]
    );
    assert_eq!(
        run_export(&[ExportEvent::Started, ExportEvent::Closed], 0),
        vec![ExportAction::Close, ExportAction::Wait]
    );
    assert_eq!(
        export_step(ExportPhase::Writing(usize::MAX), ExportEvent::Written, usize::MAX),
        (ExportPhase::Closing, ExportAction::Close)
    );
}
