//! Audiobook endpoints.

pub mod save_audiobooks_for_current_user;

pub use save_audiobooks_for_current_user::{SaveAudiobooksForCurrentUser};
