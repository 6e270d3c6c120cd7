//! Podcast episode endpoints.

pub mod save_episodes_for_current_user;

pub use save_episodes_for_current_user::{SaveEpisodesForCurrentUser};
