use lightsnip::app::{ActiveTab, GameChange, HotkeyAction, LightSnipApp, UiAction, UiEvent};
use lightsnip::config::{fps_choices, AppConfig, Key};
use lightsnip::gallery::LibraryItem;
use lightsnip::quality::VideoQuality;

fn strings(texts: &[&str]) -> Vec<String> {
    texts.iter().map(|t| t.to_string()).collect()
}

fn item(slot: usize, name: &str) -> LibraryItem {
    LibraryItem { slot, name: name.as_bytes().to_vec(), file_name: name.to_string() }
}

fn submit(add_clicked: bool, lost_focus: bool, enter_pressed: bool) -> UiEvent {
    UiEvent::SubmitGame { add_clicked, lost_focus, enter_pressed }
}

fn default_targets() -> Vec<String> {
    strings(&["minecraft", "javaw.exe", "sober", "cs2.exe", "VALORANT-Win64-Shipping.exe"])
}

#[test]
fn default_settings() {
    let config = AppConfig::default();
    assert_eq!(config.replay_duration_secs, 15);
    assert_eq!(config.target_fps, 30);
    assert_eq!(config.quality, VideoQuality::Medium);
    assert_eq!(config.clip_hotkey, Key::F9);
    assert_eq!(config.record_toggle_hotkey, Key::F10);
    assert_eq!(config.screenshot_hotkey, Key::F11);
    assert_eq!(config.game_targets, default_targets());
    let copy = config.clone();
    assert_eq!(copy.replay_duration_secs, 15);
    assert_eq!(copy.game_targets, default_targets());
}

#[test]
fn start_is_idle() {
    let app = LightSnipApp::new(vec![item(0, "a.png"), item(1, "b.mp4")]);
    assert!(!app.is_recording());
    assert!(!app.game_detected());
    assert_eq!(app.detected_game_name(), "");
    assert_eq!(app.new_game_input(), "");
    assert_eq!(app.buffered_frames(), 0);
    assert_eq!(app.active_tab(), ActiveTab::Settings);
    assert_eq!(app.config().game_targets, default_targets());
    let slots: Vec<usize> = app.library_items().iter().map(|i| i.slot).collect();
    assert_eq!(slots, vec![1, 0]);
}

#[test]
fn hotkeys_do_what_they_say() {
    let mut app = LightSnipApp::new(Vec::new());
    assert_eq!(app.key_pressed(Key::F9), HotkeyAction::SaveClip);
    assert_eq!(app.key_pressed(Key::F10), HotkeyAction::ToggleRecording(true));
    assert!(app.is_recording());
    assert_eq!(app.key_pressed(Key::F11), HotkeyAction::Screenshot);
    assert_eq!(app.key_pressed(Key::F12), HotkeyAction::Ignored);
    assert_eq!(app.key_pressed(Key::Unknown(67)), HotkeyAction::Ignored);
    assert!(app.is_recording());
}

#[test]
fn toggling_twice() {
    let mut app = LightSnipApp::new(Vec::new());
    assert_eq!(app.key_pressed(Key::F10), HotkeyAction::ToggleRecording(true));
    assert_eq!(app.key_pressed(Key::F10), HotkeyAction::ToggleRecording(false));
    assert!(!app.is_recording());
}

#[test]
fn a_game_starts_and_stops_the_recording() {
    let mut app = LightSnipApp::new(Vec::new());
    assert_eq!(app.observe_processes(&strings(&["bash"])), GameChange::Unchanged);
    assert_eq!(
        app.observe_processes(&strings(&["bash", "JavaW.exe"])),
        GameChange::Detected
    );
    assert!(app.is_recording());
    assert!(app.game_detected());
    assert_eq!(app.detected_game_name(), "JavaW.exe");
    assert_eq!(app.observe_processes(&strings(&["cs2.exe"])), GameChange::Unchanged);
    assert_eq!(app.detected_game_name(), "JavaW.exe");
    assert_eq!(app.observe_processes(&Vec::new()), GameChange::Closed);
    assert!(!app.is_recording());
    assert!(!app.game_detected());
    assert_eq!(app.detected_game_name(), "");
    assert_eq!(app.observe_processes(&Vec::new()), GameChange::Unchanged);
}

#[test]
fn the_switch_is_respected_while_the_game_stays() {
    let mut app = LightSnipApp::new(Vec::new());
    app.observe_game(Some("cs2.exe".to_string()));
    assert!(app.is_recording());
    app.key_pressed(Key::F10);
    assert_eq!(app.observe_game(Some("cs2.exe".to_string())), GameChange::Unchanged);
    assert!(!app.is_recording());
    assert_eq!(app.observe_game(None), GameChange::Closed);
    app.key_pressed(Key::F10);
    assert_eq!(app.observe_game(None), GameChange::Unchanged);
    assert!(app.is_recording());
}

#[test]
fn settings_stay_in_range() {
    let mut app = LightSnipApp::new(Vec::new());
    for (set, get) in [(5, 5), (60, 60), (33, 33), (4, 5), (0, 5), (61, 60), (u64::MAX, 60)] {
        assert_eq!(app.update(UiEvent::SetReplaySecs(set)), UiAction::Nothing);
        assert_eq!(app.config().replay_duration_secs, get);
    }
    assert_eq!(fps_choices(), vec![15, 30, 60]);
    for fps in fps_choices() {
        app.update(UiEvent::SetFps(fps));
        assert_eq!(app.config().target_fps, fps);
    }
    app.update(UiEvent::SetFps(0));
    app.update(UiEvent::SetFps(31));
    assert_eq!(app.config().target_fps, 60);
    app.update(UiEvent::SetQuality(VideoQuality::High));
    assert_eq!(app.config().quality, VideoQuality::High);
    app.update(UiEvent::SelectTab(ActiveTab::Library));
    assert_eq!(app.active_tab(), ActiveTab::Library);
}

#[test]
fn games_are_added() {
    let mut app = LightSnipApp::new(Vec::new());
    app.update(UiEvent::EditGameInput(" \t hl2.exe \n".to_string()));
    assert_eq!(app.new_game_input(), " \t hl2.exe \n");
    app.update(submit(false, false, false));
    app.update(submit(false, true, false));
    app.update(submit(false, false, true));
    assert_eq!(app.config().game_targets, default_targets());
    app.update(submit(false, true, true));
    let mut expected = default_targets();
    expected.push("hl2.exe".to_string());
    assert_eq!(app.config().game_targets, expected);
    assert_eq!(app.new_game_input(), "");
    app.update(UiEvent::EditGameInput("two words".to_string()));
    app.update(submit(true, false, false));
    expected.push("two words".to_string());
    assert_eq!(app.config().game_targets, expected);
}

#[test]
fn blank_games_are_not_added() {
    let mut app = LightSnipApp::new(Vec::new());
    app.update(submit(true, true, true));
    app.update(UiEvent::EditGameInput(" \u{3000}\t".to_string()));
    app.update(submit(true, true, true));
    assert_eq!(app.config().game_targets, default_targets());
    assert_eq!(app.new_game_input(), " \u{3000}\t");
}

#[test]
fn white_space_is_trimmed_and_nothing_else() {
    let white: Vec<u32> = vec![
        0x9, 0xa, 0xb, 0xc, 0xd, 0x20, 0x85, 0xa0, 0x1680, 0x2000, 0x2001, 0x2002, 0x2003, 0x2004,
        0x2005, 0x2006, 0x2007, 0x2008, 0x2009, 0x200a, 0x2028, 0x2029, 0x202f, 0x205f, 0x3000,
    ];
    let mut app = LightSnipApp::new(Vec::new());
    for code in 0..=0x10ffffu32 {
        if let Some(c) = char::from_u32(code) {
            let text = format!("{}{}x{}", c, c, c);
            app.update(UiEvent::EditGameInput(text.clone()));
            app.update(submit(true, false, false));
            let added = app.config().game_targets.len() - 1;
            let expected = if white.contains(&code) { "x".to_string() } else { text };
            assert_eq!(app.config().game_targets[added], expected);
            app.update(UiEvent::RemoveGame(added));
        }
    }
    assert_eq!(app.config().game_targets, default_targets());
}

#[test]
fn games_are_removed() {
    let mut app = LightSnipApp::new(Vec::new());
    app.update(UiEvent::RemoveGame(1));
    assert_eq!(
        app.config().game_targets,
        strings(&["minecraft", "sober", "cs2.exe", "VALORANT-Win64-Shipping.exe"])
    );
    app.update(UiEvent::RemoveGame(3));
    assert_eq!(app.config().game_targets, strings(&["minecraft", "sober", "cs2.exe"]));
    assert_eq!(app.observe_processes(&strings(&["javaw.exe"])), GameChange::Unchanged);
}

#[test]
fn removing_undoes_adding() {
    let mut app = LightSnipApp::new(Vec::new());
    app.update(UiEvent::EditGameInput("portal".to_string()));
    app.update(submit(true, false, false));
    app.update(UiEvent::RemoveGame(5));
    assert_eq!(app.config().game_targets, default_targets());
}

#[test]
fn the_library_is_handled_by_its_scan() {
    let mut app = LightSnipApp::new(Vec::new());
    assert_eq!(app.update(UiEvent::RefreshLibrary), UiAction::ScanLibrary);
    app.refresh_library(vec![item(0, "a"), item(1, "c"), item(2, "b")]);
    assert_eq!(app.update(UiEvent::OpenItem(0)), UiAction::OpenFile(1));
    assert_eq!(app.update(UiEvent::DeleteItem(2)), UiAction::DeleteFile(0));
    assert_eq!(app.library_items().len(), 3);
    app.refresh_library(Vec::new());
    assert!(app.library_items().is_empty());
}

#[test]
fn labels_of_the_settings() {
    let mut app = LightSnipApp::new(Vec::new());
    assert_eq!(app.replay_label(), "• Clip Replay: [ F9 ] (15s)");
    assert_eq!(app.state_label(), "State: ⚪ IDLE");
    assert_eq!(app.game_label(), "⚪ NO GAME MATCH");
    assert_eq!(
        app.target_labels(),
        strings(&[
            "• minecraft",
            "• javaw.exe",
            "• sober",
            "• cs2.exe",
            "• VALORANT-Win64-Shipping.exe",
        ])
    );
    app.update(UiEvent::SetReplaySecs(60));
    app.observe_game(Some("Sober".to_string()));
    assert_eq!(app.replay_label(), "• Clip Replay: [ F9 ] (60s)");
    assert_eq!(app.state_label(), "State: 🔴 RECORDING");
    assert_eq!(app.game_label(), "🎮 GAME: Sober");
}

#[test]
fn the_library_tab_leaves_the_settings_alone() {
    let mut app = LightSnipApp::new(vec![item(0, "a"), item(1, "b")]);
    app.update(UiEvent::EditGameInput("portal".to_string()));
    app.update(UiEvent::SelectTab(ActiveTab::Library));
    app.update(UiEvent::RefreshLibrary);
    app.update(UiEvent::OpenItem(0));
    app.update(UiEvent::DeleteItem(1));
    assert_eq!(app.new_game_input(), "portal");
    assert_eq!(app.config().replay_duration_secs, 15);
    assert_eq!(app.config().target_fps, 30);
    assert_eq!(app.config().game_targets, default_targets());
    assert_eq!(app.library_items().len(), 2);
    app.update(UiEvent::SelectTab(ActiveTab::Settings));
    app.update(submit(true, false, false));
    assert_eq!(app.library_items().len(), 2);
}

#[test]
fn a_game_is_named_exactly_while_detected() {
    let mut app = LightSnipApp::new(Vec::new());
    for processes in [vec![], vec!["", "cs2.exe"], vec![""], vec!["sober"], vec!["bash", ""]] {
        app.observe_processes(&strings(&processes));
        assert_eq!(app.game_detected(), !app.detected_game_name().is_empty());
    }
}
