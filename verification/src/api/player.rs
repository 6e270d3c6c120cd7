//! Playback control endpoints.

pub mod get_playback_state;
pub mod pause_playback;
pub mod set_repeat_mode;

pub use get_playback_state::{GetPlaybackState, GetPlaybackStateBuilder};
pub use pause_playback::{PausePlayback};
pub use set_repeat_mode::{SetRepeatMode};
