//! The logic of LightSnip, an instant-replay recorder.
//!
//! While a game runs, the recorder keeps the frames of the last seconds in memory. A hotkey
//! exports them as a clip, another takes a screenshot, a third switches the recording. The
//! captures are listed in a library.
//!
//! - [`app`] holds the recorder's state and everything that changes it;
//! - [`capture`] is the cycle of the thread that captures frames;
//! - [`replay`] is the buffer of the last frames, and [`encode`] turns them into a clip;
//! - [`detect`] tells games by the names of the running processes;
//! - [`gallery`] orders and labels the captures, and [`clock`] names them;
//! - [`config`] and [`quality`] are the settings, [`text`] works on strings;
//! - [`operations`] and [`behaviour`] say what each operation does in plain terms;
//! - [`laws`], [`runs`] and [`stamps`] state what holds of all of this together.
pub mod app;
pub mod behaviour;
pub mod capture;
pub mod clock;
pub mod config;
pub mod detect;
pub mod encode;
pub mod gallery;
pub mod laws;
pub mod operations;
pub mod quality;
pub mod replay;
pub mod runs;
pub mod stamps;
pub mod text;

pub use app::LightSnipApp;
pub use config::AppConfig;
pub use quality::VideoQuality;
