//! Spotify Web API data model.
//!
//! This module contains the data types returned by the Spotify Web API,
//! organized by resource type.
//!
//! # Common Types
//!
//! - [`Page`] - Paginated response wrapper
//! - [`Image`] - Image metadata
//! - [`ExternalUrls`] - External URL links (Spotify URLs)
//! - [`Followers`] - Follower information

pub mod albums;
pub mod artists;
pub mod audiobooks;
pub mod categories;
pub mod chapters;
pub mod episodes;
pub mod id;
pub mod markets;
pub mod misc;
pub mod player;
pub mod playlists;
pub mod search;
pub mod shows;
pub mod token;
pub mod tracks;
pub mod users;

pub use albums::{Album, AlbumType, Albums, NewReleases, SavedAlbum, SimplifiedAlbum};
pub use artists::{Artist, Artists, FollowedArtist, FollowedArtists, SimplifiedArtist};
pub use audiobooks::{Audiobook, Audiobooks, Author, Narrator, SimplifiedAudiobook};
pub use categories::{Categories, Category};
pub use chapters::{Chapter, Chapters, SimplifiedChapter};
pub use episodes::{Episode, Episodes, SavedEpisode, SimplifiedEpisode};
pub use id::{
    is_base62, AlbumId, ArtistId, ContextType, EpisodeId, IdError, IdType, PlaylistId, ShowId,
    TrackId, UserId,
};
pub use markets::Market;
pub use misc::{
    Copyright, CopyrightType, Cursors, ExternalIds, ExternalUrls, FollowType, FollowedArtistsType,
    Followers, Icon, Image, IncludeExternalType, ItemType, Page, ReleaseDatePrecision, Restrictions,
    ResumePoint, TimeRange, TopItem, TopItemType, TopItems, TrackItem, VideoThumbnail,
};
pub use player::{
    Actions, Context, CurrentlyPlaying, CurrentlyPlayingType, Device, Devices, Offset, PlayHistory,
    PlaybackState, PlaylistItem, QueryRange, Queue, RecentlyPlayedTracks, RepeatState,
};
pub use playlists::{AddedBy, Playlist, PlaylistTrack, SimplifiedPlaylist, SnapshotId};
pub use search::{SearchResults, SearchType};
pub use shows::{SavedShow, Show, Shows, SimplifiedShow};
pub use token::Token;
pub use tracks::{LinkedFrom, SavedTrack, SimplifiedTrack, Track, TrackReference, Tracks};
pub use users::{CurrentUserProfile, ExplicitContent, SubscriptionType, UserProfile, UserReference};
