//! Track endpoints.

pub mod remove_user_saved_tracks;
pub mod save_tracks_for_current_user;

pub use remove_user_saved_tracks::{RemoveUserSavedTracks, RemoveUserSavedTracksBuilder};
pub use save_tracks_for_current_user::{SaveTracksForCurrentUser};
