use lightsnip::app::{LightSnipApp, UiEvent};
use lightsnip::capture::{primary_monitor, rest, CaptureAction, CaptureCycle, CaptureEvent, CapturePhase, ClipJob};
use lightsnip::config::Key;
use lightsnip::encode::encode_buffer_to_mp4;
use lightsnip::quality::VideoQuality;
use lightsnip::replay::StoredFrame;

const SECOND: u128 = 1_000_000_000;

fn frame(timestamp: u128, tag: u8) -> StoredFrame {
    StoredFrame { timestamp, width: 1, height: 2, pixels: vec![tag; 8] }
}

fn job(action: CaptureAction) -> ClipJob {
    match action {
        CaptureAction::ExportClip(job) => job,
        _ => panic!("no clip was exported"),
    }
}

/// Runs a cycle in which nothing was asked for.
fn quiet_cycle(app: &mut LightSnipApp, cycle: &mut CaptureCycle, shot: Option<StoredFrame>) {
    let action = app.capture_loop(cycle, CaptureEvent::Begin);
    let action = if matches!(action, CaptureAction::CaptureFrame) {
        let event = match shot {
            Some(f) => CaptureEvent::FrameCaptured(f),
            None => CaptureEvent::FrameFailed,
        };
        app.capture_loop(cycle, event)
    } else {
        action
    };
    assert!(matches!(action, CaptureAction::MeasureElapsed));
    let action = app.capture_loop(cycle, CaptureEvent::Elapsed(SECOND));
    assert!(matches!(action, CaptureAction::Proceed));
}

#[test]
fn an_idle_cycle_only_paces() {
    let mut app = LightSnipApp::new(Vec::new());
    let mut cycle = CaptureCycle::new();
    assert!(matches!(
        app.capture_loop(&mut cycle, CaptureEvent::Begin),
        CaptureAction::MeasureElapsed
    ));
    assert_eq!(cycle.phase(), CapturePhase::Pace);
    assert!(matches!(
        app.capture_loop(&mut cycle, CaptureEvent::Elapsed(3_000_000)),
        CaptureAction::Sleep(30_000_000)
    ));
    assert_eq!(cycle.phase(), CapturePhase::Idle);
}

#[test]
fn frames_are_kept_while_recording() {
    let mut app = LightSnipApp::new(Vec::new());
    let mut cycle = CaptureCycle::new();
    app.key_pressed(Key::F10);
    quiet_cycle(&mut app, &mut cycle, Some(frame(0, 1)));
    quiet_cycle(&mut app, &mut cycle, Some(frame(10 * SECOND, 2)));
    quiet_cycle(&mut app, &mut cycle, None);
    assert_eq!(app.buffered_frames(), 2);
    quiet_cycle(&mut app, &mut cycle, Some(frame(15 * SECOND + 1, 3)));
    assert_eq!(app.buffered_frames(), 2);
    app.key_pressed(Key::F10);
    quiet_cycle(&mut app, &mut cycle, None);
    assert_eq!(app.buffered_frames(), 0);
}

#[test]
fn a_clip_is_exported_once() {
    let mut app = LightSnipApp::new(Vec::new());
    let mut cycle = CaptureCycle::new();
    app.key_pressed(Key::F10);
    app.update(UiEvent::SetQuality(VideoQuality::High));
    quiet_cycle(&mut app, &mut cycle, Some(frame(1, 1)));
    app.key_pressed(Key::F9);
    app.key_pressed(Key::F9);
    app.capture_loop(&mut cycle, CaptureEvent::Begin);
    let clip = job(app.capture_loop(&mut cycle, CaptureEvent::FrameCaptured(frame(2, 2))));
    assert_eq!(clip.frames, vec![(1, 2, vec![1u8; 8]), (1, 2, vec![2u8; 8])]);
    assert_eq!(clip.fps, 30);
    assert_eq!(clip.crf, "18");
    assert_eq!(app.buffered_frames(), 2);
    assert!(matches!(
        app.capture_loop(&mut cycle, CaptureEvent::ClipTaken),
        CaptureAction::MeasureElapsed
    ));
    app.capture_loop(&mut cycle, CaptureEvent::Elapsed(SECOND));
    quiet_cycle(&mut app, &mut cycle, Some(frame(3, 3)));
}

#[test]
fn a_clip_without_recording_is_empty() {
    let mut app = LightSnipApp::new(Vec::new());
    let mut cycle = CaptureCycle::new();
    app.key_pressed(Key::F10);
    quiet_cycle(&mut app, &mut cycle, Some(frame(1, 1)));
    app.key_pressed(Key::F10);
    app.key_pressed(Key::F9);
    let clip = job(app.capture_loop(&mut cycle, CaptureEvent::Begin));
    assert!(clip.frames.is_empty());
    assert!(encode_buffer_to_mp4(clip.frames, clip.fps, &clip.crf).is_none());
}

#[test]
fn the_clip_goes_before_the_screenshot() {
    let mut app = LightSnipApp::new(Vec::new());
    let mut cycle = CaptureCycle::new();
    app.key_pressed(Key::F11);
    app.key_pressed(Key::F9);
    let action = app.capture_loop(&mut cycle, CaptureEvent::Begin);
    assert!(matches!(action, CaptureAction::ExportClip(_)));
    assert_eq!(cycle.phase(), CapturePhase::Clip);
    let action = app.capture_loop(&mut cycle, CaptureEvent::ClipTaken);
    assert!(matches!(action, CaptureAction::TakeScreenshot));
    assert_eq!(cycle.phase(), CapturePhase::Screenshot);
    let action = app.capture_loop(&mut cycle, CaptureEvent::ScreenshotTaken);
    assert!(matches!(action, CaptureAction::MeasureElapsed));
    app.capture_loop(&mut cycle, CaptureEvent::Elapsed(0));
    quiet_cycle(&mut app, &mut cycle, None);
}

#[test]
fn a_cycle_keeps_the_settings_it_began_with() {
    let mut app = LightSnipApp::new(Vec::new());
    let mut cycle = CaptureCycle::new();
    app.key_pressed(Key::F10);
    app.key_pressed(Key::F9);
    app.capture_loop(&mut cycle, CaptureEvent::Begin);
    app.update(UiEvent::SetFps(60));
    app.update(UiEvent::SetQuality(VideoQuality::Low));
    let clip = job(app.capture_loop(&mut cycle, CaptureEvent::FrameCaptured(frame(1, 1))));
    assert_eq!(clip.fps, 30);
    assert_eq!(clip.crf, "23");
    app.capture_loop(&mut cycle, CaptureEvent::ClipTaken);
    assert!(matches!(
        app.capture_loop(&mut cycle, CaptureEvent::Elapsed(0)),
        CaptureAction::Sleep(33_000_000)
    ));
}

#[test]
fn stray_events_are_ignored() {
    let mut app = LightSnipApp::new(Vec::new());
    let mut cycle = CaptureCycle::new();
    app.key_pressed(Key::F9);
    for event in [
        CaptureEvent::FrameCaptured(frame(1, 1)),
        CaptureEvent::FrameFailed,
        CaptureEvent::ClipTaken,
        CaptureEvent::ScreenshotTaken,
        CaptureEvent::Elapsed(1),
    ] {
        assert!(matches!(app.capture_loop(&mut cycle, event), CaptureAction::Ignored));
        assert_eq!(cycle.phase(), CapturePhase::Idle);
    }
    assert_eq!(app.buffered_frames(), 0);
    assert!(matches!(
        app.capture_loop(&mut cycle, CaptureEvent::Begin),
        CaptureAction::ExportClip(_)
    ));
    assert!(matches!(app.capture_loop(&mut cycle, CaptureEvent::Begin), CaptureAction::Ignored));
}

#[test]
fn cycles_are_paced() {
    assert!(matches!(rest(15, 0), CaptureAction::Sleep(66_000_000)));
    assert!(matches!(rest(30, 0), CaptureAction::Sleep(33_000_000)));
    assert!(matches!(rest(60, 0), CaptureAction::Sleep(16_000_000)));
    assert!(matches!(rest(60, 15_999_999), CaptureAction::Sleep(1)));
    assert!(matches!(rest(60, 16_000_000), CaptureAction::Proceed));
    assert!(matches!(rest(60, u128::MAX), CaptureAction::Proceed));
    assert!(matches!(rest(1001, 0), CaptureAction::Proceed));
    assert!(matches!(rest(1, 1), CaptureAction::Sleep(999_999_999)));
}

#[test]
fn the_first_primary_monitor_is_taken() {
    assert_eq!(primary_monitor(&vec![false, true, true]), Some(1));
    assert_eq!(primary_monitor(&vec![true]), Some(0));
    assert_eq!(primary_monitor(&vec![false, false]), None);
    assert_eq!(primary_monitor(&Vec::new()), None);
}

#[test]
fn the_last_seconds_survive_whatever_else_happens() {
    let mut app = LightSnipApp::new(Vec::new());
    let mut cycle = CaptureCycle::new();
    app.observe_game(Some("sober".to_string()));
    app.update(UiEvent::SetReplaySecs(5));
    for i in 0..40u8 {
        quiet_cycle(&mut app, &mut cycle, Some(frame(i as u128 * SECOND / 2, i)));
        app.update(UiEvent::EditGameInput("x".to_string()));
        app.observe_game(Some("other".to_string()));
        app.key_pressed(Key::F12);
    }
    app.key_pressed(Key::F9);
    app.capture_loop(&mut cycle, CaptureEvent::Begin);
    let clip = job(app.capture_loop(&mut cycle, CaptureEvent::FrameCaptured(frame(20 * SECOND, 40))));
    let tags: Vec<u8> = clip.frames.iter().map(|f| f.2[0]).collect();
    let expected: Vec<u8> = (30..=40).collect();
    assert_eq!(tags, expected);
}

#[test]
fn the_hotkeys_stay() {
    let mut app = LightSnipApp::new(Vec::new());
    let mut cycle = CaptureCycle::new();
    for _ in 0..3 {
        app.key_pressed(Key::F10);
        app.key_pressed(Key::KeyA);
        app.update(UiEvent::SetReplaySecs(60));
        app.update(UiEvent::SetFps(15));
        app.update(UiEvent::RemoveGame(0));
        app.observe_game(Some("sober".to_string()));
        app.observe_game(None);
        quiet_cycle(&mut app, &mut cycle, Some(frame(1, 1)));
        assert_eq!(app.config().clip_hotkey, Key::F9);
        assert_eq!(app.config().record_toggle_hotkey, Key::F10);
        assert_eq!(app.config().screenshot_hotkey, Key::F11);
    }
}
