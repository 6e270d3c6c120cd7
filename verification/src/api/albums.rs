//! Album endpoints.

pub mod check_user_saved_albums;
pub mod get_several_albums;
pub mod get_user_saved_albums;
pub mod save_albums_for_current_user;

pub use check_user_saved_albums::{CheckUserSavedAlbums, CheckUserSavedAlbumsBuilder};
pub use get_several_albums::{GetSeveralAlbums};
pub use get_user_saved_albums::{GetUserSavedAlbums, GetUserSavedAlbumsBuilder};
pub use save_albums_for_current_user::{SaveAlbumsForCurrentUser};
