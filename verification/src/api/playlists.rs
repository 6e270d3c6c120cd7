//! Playlist endpoints.

pub mod add_items_to_playlist;
pub mod create_playlist;
pub mod get_current_user_playlists;
pub mod get_playlist;

pub use add_items_to_playlist::{AddItemsToPlaylist};
pub use create_playlist::{CreatePlaylist};
pub use get_current_user_playlists::{GetCurrentUserPlaylists};
pub use get_playlist::{GetPlaylist};
