//! User profile and follow endpoints.

pub mod get_followed_artists;

pub use get_followed_artists::{GetFollowedArtists};
