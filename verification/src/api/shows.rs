//! Podcast show endpoints.

pub mod get_show;
pub mod remove_user_saved_shows;
pub mod save_shows_for_current_user;

pub use get_show::{GetShow, GetShowBuilder};
pub use remove_user_saved_shows::{RemoveUserSavedShows};
pub use save_shows_for_current_user::{SaveShowsForCurrentUser};
