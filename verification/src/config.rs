//! The settings of the recorder.
use vstd::prelude::*;

use crate::encode::texts;
use crate::quality::VideoQuality;
use crate::text::trimmed;

verus! {

/// A key of the keyboard, named by its place on a QWERTY layout.
#[derive(Clone, Copy, Debug, PartialEq, Eq, Structural)]
pub enum Key {
    /// Alt on Linux and Windows, option on macOS.
    Alt,
    AltGr,
    Backspace,
    CapsLock,
    ControlLeft,
    ControlRight,
    Delete,
    DownArrow,
    End,
    Escape,
    F1,
    F10,
    F11,
    F12,
    F2,
    F3,
    F4,
    F5,
    F6,
    F7,
    F8,
    F9,
    Home,
    LeftArrow,
    /// The left key known as windows, super or command.
    MetaLeft,
    /// The right key known as windows, super or command.
    MetaRight,
    PageDown,
    PageUp,
    Return,
    RightArrow,
    ShiftLeft,
    ShiftRight,
    Space,
    Tab,
    UpArrow,
    PrintScreen,
    ScrollLock,
    Pause,
    NumLock,
    BackQuote,
    Num1,
    Num2,
    Num3,
    Num4,
    Num5,
    Num6,
    Num7,
    Num8,
    Num9,
    Num0,
    Minus,
    Equal,
    KeyQ,
    KeyW,
    KeyE,
    KeyR,
    KeyT,
    KeyY,
    KeyU,
    KeyI,
    KeyO,
    KeyP,
    LeftBracket,
    RightBracket,
    KeyA,
    KeyS,
    KeyD,
    KeyF,
    KeyG,
    KeyH,
    KeyJ,
    KeyK,
    KeyL,
    SemiColon,
    Quote,
    BackSlash,
    IntlBackslash,
    KeyZ,
    KeyX,
    KeyC,
    KeyV,
    KeyB,
    KeyN,
    KeyM,
    Comma,
    Dot,
    Slash,
    Insert,
    KpReturn,
    KpMinus,
    KpPlus,
    KpMultiply,
    KpDivide,
    Kp0,
    Kp1,
    Kp2,
    Kp3,
    Kp4,
    Kp5,
    Kp6,
    Kp7,
    Kp8,
    Kp9,
    KpDelete,
    Function,
    /// A key without a name here, by its platform code.
    Unknown(u32),
}

/// The settings.
pub struct AppConfig {
    /// How many seconds of frames the replay buffer keeps.
    pub replay_duration_secs: u64,
    /// How many frames a second are captured.
    pub target_fps: u32,
    pub quality: VideoQuality,
    pub clip_hotkey: Key,
    pub record_toggle_hotkey: Key,
    pub screenshot_hotkey: Key,
    /// Parts of process names that tell a game.
    pub game_targets: Vec<String>,
}

/// What an [`AppConfig`] holds.
#[verifier::ext_equal]
pub struct ConfigView {
    pub replay_duration_secs: u64,
    pub target_fps: u32,
    pub quality: VideoQuality,
    pub clip_hotkey: Key,
    pub record_toggle_hotkey: Key,
    pub screenshot_hotkey: Key,
    pub game_targets: Seq<Seq<char>>,
}

impl View for AppConfig {
    type V = ConfigView;

    open spec fn view(&self) -> ConfigView {
        ConfigView {
            replay_duration_secs: self.replay_duration_secs,
            target_fps: self.target_fps,
            quality: self.quality,
            clip_hotkey: self.clip_hotkey,
            record_toggle_hotkey: self.record_toggle_hotkey,
            screenshot_hotkey: self.screenshot_hotkey,
            game_targets: texts(self.game_targets@),
        }
    }
}

/// The settings that the recorder starts with.
pub open spec fn default_config() -> ConfigView {
    ConfigView {
        replay_duration_secs: 15,
        target_fps: 30,
        quality: VideoQuality::Medium,
        clip_hotkey: Key::F9,
        record_toggle_hotkey: Key::F10,
        screenshot_hotkey: Key::F11,
        game_targets: seq![
            "minecraft"@,
            "javaw.exe"@,
            "sober"@,
            "cs2.exe"@,
            "VALORANT-Win64-Shipping.exe"@,
        ],
    }
}

impl Default for AppConfig {
    fn default() -> (config: Self)
        ensures
            config@ == default_config(),
    {
        let config = AppConfig {
            replay_duration_secs: 15,
            target_fps: 30,
            quality: VideoQuality::Medium,
            clip_hotkey: Key::F9,
            record_toggle_hotkey: Key::F10,
            screenshot_hotkey: Key::F11,
            game_targets: vec![
                "minecraft".to_owned(),
                "javaw.exe".to_owned(),
                "sober".to_owned(),
                "cs2.exe".to_owned(),
                "VALORANT-Win64-Shipping.exe".to_owned(),
            ],
        };
        assert(texts(config.game_targets@) =~= default_config().game_targets);
        config
    }
}

impl Clone for AppConfig {
    fn clone(&self) -> (config: Self)
        ensures
            config@ == self@,
    {
        let config = AppConfig {
            replay_duration_secs: self.replay_duration_secs,
            target_fps: self.target_fps,
            quality: self.quality,
            clip_hotkey: self.clip_hotkey,
            record_toggle_hotkey: self.record_toggle_hotkey,
            screenshot_hotkey: self.screenshot_hotkey,
            game_targets: self.game_targets.clone(),
        };
        assert(texts(config.game_targets@) =~= texts(self.game_targets@));
        config
    }
}

/// The shortest replay that can be set, in seconds.
pub const MIN_REPLAY_SECS: u64 = 5;

/// The longest replay that can be set, in seconds.
pub const MAX_REPLAY_SECS: u64 = 60;

/// The capture rate is one of those on offer.
pub open spec fn offered_fps(fps: u32) -> bool {
    fps == 15 || fps == 30 || fps == 60
}

/// The capture rates on offer, in frames a second.
pub fn fps_choices() -> (choices: Vec<u32>)
    ensures
        choices@ == seq![15u32, 30u32, 60u32],
        forall|fps: u32| offered_fps(fps) <==> #[trigger] choices@.contains(fps),
{
    let choices: Vec<u32> = vec![15, 30, 60];
    assert(choices@[0] == 15 && choices@[1] == 30 && choices@[2] == 60);
    choices
}

/// Whether the capture rate is one of those on offer.
pub fn is_offered_fps(fps: u32) -> (offered: bool)
    ensures
        offered == offered_fps(fps),
{
    fps == 15 || fps == 30 || fps == 60
}

impl ConfigView {
    /// The settings lie in the ranges that the controls allow, and no target is empty or
    /// has white space around it.
    pub open spec fn in_range(self) -> bool {
        &&& MIN_REPLAY_SECS <= self.replay_duration_secs <= MAX_REPLAY_SECS
        &&& offered_fps(self.target_fps)
        &&& forall|i: int|
            0 <= i < self.game_targets.len() ==> proper_target(#[trigger] self.game_targets[i])
    }
}

/// The text can stand among the monitored games.
pub open spec fn proper_target(target: Seq<char>) -> bool {
    target.len() > 0 && trimmed(target) == target
}

/// The default settings are in range.
pub proof fn default_is_in_range()
    ensures
        default_config().in_range(),
{
    reveal_strlit("minecraft");
    reveal_strlit("javaw.exe");
    reveal_strlit("sober");
    reveal_strlit("cs2.exe");
    reveal_strlit("VALORANT-Win64-Shipping.exe");
}

} // verus!
