//! Playlists.

use vstd::prelude::*;
use vstd::string::*;
use crate::api::error::DecodeError;
use crate::decode::{field, field_decodes, field_defect, FromJson};
use crate::json::{Json, JsonValue};
use crate::model::misc::ExternalUrls;
use crate::model::misc::Followers;
use crate::model::misc::Image;
use crate::model::misc::ItemType;
use crate::model::misc::Page;
use crate::model::misc::TrackItem;
use crate::model::misc::VideoThumbnail;
use crate::model::tracks::TrackReference;
use crate::model::users::UserReference;

verus! {

/// Full playlist information from the Spotify catalog.
///
/// Contains complete details about a playlist including its tracks (when the
/// `page_items` feature is enabled), description, and follower count.
#[derive(Debug, Clone, PartialEq, Eq)]
pub struct Playlist {
    /// true if the owner allows other users to modify the playlist.
    pub collaborative: bool,
    /// The playlist description. Only returned for modified, verified playlists, otherwise None.
    pub description: Option<String>,
    /// Known external URLs for this playlist.
    pub external_urls: ExternalUrls,
    /// Information about the followers of the playlist.
    pub followers: Followers,
    /// A link to the Web API endpoint providing full details of the playlist.
    pub href: String,
    /// The [Spotify ID](https://developer.spotify.com/documentation/web-api/concepts/spotify-uris-ids) for the playlist.
    pub id: String,
    /// Images for the playlist. The array may be empty or contain up to three images.
    pub images: Option<Vec<Image>>,
    /// The name of the playlist.
    pub name: String,
    /// The user who owns the playlist
    pub owner: UserReference,
    /// Gradient color of the playlist's cover image.
    /// Will always be None as this is only used internally by Spotify.
    pub primary_color: Option<String>,
    /// The playlist's public/private status: true the playlist is public, false the playlist is private,
    /// null the playlist status is not relevant.
    pub public: Option<bool>,
    /// The version identifier for the current playlist. Can be supplied in other requests to target a specific playlist version
    pub snapshot_id: String,
    /// The tracks of the playlist.
    pub tracks: Page<PlaylistTrack>,
    /// The object type: "playlist"
    pub type_: ItemType,
    /// The [Spotify URI](https://developer.spotify.com/documentation/web-api/concepts/spotify-uris-ids) for the playlist.
    pub uri: String,
}

impl FromJson for Playlist {
    open spec fn decodes(json: JsonValue, value: Self) -> bool {
        &&& field_decodes::<bool>(json, "collaborative"@, value.collaborative)
        &&& field_decodes::<Option<String>>(json, "description"@, value.description)
        &&& field_decodes::<ExternalUrls>(json, "external_urls"@, value.external_urls)
        &&& field_decodes::<Followers>(json, "followers"@, value.followers)
        &&& field_decodes::<String>(json, "href"@, value.href)
        &&& field_decodes::<String>(json, "id"@, value.id)
        &&& field_decodes::<Option<Vec<Image>>>(json, "images"@, value.images)
        &&& field_decodes::<String>(json, "name"@, value.name)
        &&& field_decodes::<UserReference>(json, "owner"@, value.owner)
        &&& field_decodes::<Option<String>>(json, "primary_color"@, value.primary_color)
        &&& field_decodes::<Option<bool>>(json, "public"@, value.public)
        &&& field_decodes::<String>(json, "snapshot_id"@, value.snapshot_id)
        &&& field_decodes::<Page<PlaylistTrack>>(json, "tracks"@, value.tracks)
        &&& field_decodes::<ItemType>(json, "type"@, value.type_)
        &&& field_decodes::<String>(json, "uri"@, value.uri)
    }

    open spec fn defect(json: JsonValue) -> Option<DecodeError> {
        if field_defect::<bool>(json, "collaborative"@) is Some {
            field_defect::<bool>(json, "collaborative"@)
        } else if field_defect::<Option<String>>(json, "description"@) is Some {
            field_defect::<Option<String>>(json, "description"@)
        } else if field_defect::<ExternalUrls>(json, "external_urls"@) is Some {
            field_defect::<ExternalUrls>(json, "external_urls"@)
        } else if field_defect::<Followers>(json, "followers"@) is Some {
            field_defect::<Followers>(json, "followers"@)
        } else if field_defect::<String>(json, "href"@) is Some {
            field_defect::<String>(json, "href"@)
        } else if field_defect::<String>(json, "id"@) is Some {
            field_defect::<String>(json, "id"@)
        } else if field_defect::<Option<Vec<Image>>>(json, "images"@) is Some {
            field_defect::<Option<Vec<Image>>>(json, "images"@)
        } else if field_defect::<String>(json, "name"@) is Some {
            field_defect::<String>(json, "name"@)
        } else if field_defect::<UserReference>(json, "owner"@) is Some {
            field_defect::<UserReference>(json, "owner"@)
        } else if field_defect::<Option<String>>(json, "primary_color"@) is Some {
            field_defect::<Option<String>>(json, "primary_color"@)
        } else if field_defect::<Option<bool>>(json, "public"@) is Some {
            field_defect::<Option<bool>>(json, "public"@)
        } else if field_defect::<String>(json, "snapshot_id"@) is Some {
            field_defect::<String>(json, "snapshot_id"@)
        } else if field_defect::<Page<PlaylistTrack>>(json, "tracks"@) is Some {
            field_defect::<Page<PlaylistTrack>>(json, "tracks"@)
        } else if field_defect::<ItemType>(json, "type"@) is Some {
            field_defect::<ItemType>(json, "type"@)
        } else {
            field_defect::<String>(json, "uri"@)
        }
    }

    open spec fn spec_target() -> Seq<char> {
        "Playlist"@
    }

    fn target() -> (r: &'static str) {
        "Playlist"
    }

    fn from_json(json: &Json) -> (r: Result<Self, DecodeError>) {
        let collaborative = field::<bool>(json, "collaborative")?;
        let description = field::<Option<String>>(json, "description")?;
        let external_urls = field::<ExternalUrls>(json, "external_urls")?;
        let followers = field::<Followers>(json, "followers")?;
        let href = field::<String>(json, "href")?;
        let id = field::<String>(json, "id")?;
        let images = field::<Option<Vec<Image>>>(json, "images")?;
        let name = field::<String>(json, "name")?;
        let owner = field::<UserReference>(json, "owner")?;
        let primary_color = field::<Option<String>>(json, "primary_color")?;
        let public = field::<Option<bool>>(json, "public")?;
        let snapshot_id = field::<String>(json, "snapshot_id")?;
        let tracks = field::<Page<PlaylistTrack>>(json, "tracks")?;
        let type_ = field::<ItemType>(json, "type")?;
        let uri = field::<String>(json, "uri")?;
        Ok(Playlist { collaborative, description, external_urls, followers, href, id, images, name, owner, primary_color, public, snapshot_id, tracks, type_, uri })
    }
}

/// Simplified playlist information with basic details only.
///
/// A lighter version of [`Playlist`] that omits follower count and includes
/// only a track reference instead of the full track list.
#[derive(Debug, Clone, PartialEq, Eq)]
pub struct SimplifiedPlaylist {
    /// true if the owner allows other users to modify the playlist.
    pub collaborative: bool,
    /// The playlist description. Only returned for modified, verified playlists, otherwise None.
    pub description: Option<String>,
    /// Known external URLs for this playlist.
    pub external_urls: ExternalUrls,
    /// A link to the Web API endpoint providing full details of the playlist.
    pub href: String,
    /// The [Spotify ID](https://developer.spotify.com/documentation/web-api/concepts/spotify-uris-ids) for the playlist.
    pub id: String,
    /// Images for the playlist. The array may be empty or contain up to three images.
    pub images: Option<Vec<Image>>,
    /// The name of the playlist.
    pub name: String,
    /// The user who owns the playlist
    pub owner: UserReference,
    /// Gradient color of the playlist's cover image.
    /// Will always be None as this is only used internally by Spotify.
    pub primary_color: Option<String>,
    /// The playlist's public/private status: true the playlist is public, false the playlist is private,
    /// null the playlist status is not relevant.
    pub public: Option<bool>,
    /// The version identifier for the current playlist. Can be supplied in other requests to target a specific playlist version
    pub snapshot_id: String,
    /// A collection containing a link ( href ) to the Web API endpoint where full details of the playlist's tracks can be retrieved,
    /// along with the total number of tracks in the playlist. Note, a track object may be null. This can happen if a track is no longer available.
    pub tracks: Option<TrackReference>,
    /// The object type: "playlist"
    pub type_: ItemType,
    /// The [Spotify URI](https://developer.spotify.com/documentation/web-api/concepts/spotify-uris-ids) for the playlist.
    pub uri: String,
}

impl FromJson for SimplifiedPlaylist {
    open spec fn decodes(json: JsonValue, value: Self) -> bool {
        &&& field_decodes::<bool>(json, "collaborative"@, value.collaborative)
        &&& field_decodes::<Option<String>>(json, "description"@, value.description)
        &&& field_decodes::<ExternalUrls>(json, "external_urls"@, value.external_urls)
        &&& field_decodes::<String>(json, "href"@, value.href)
        &&& field_decodes::<String>(json, "id"@, value.id)
        &&& field_decodes::<Option<Vec<Image>>>(json, "images"@, value.images)
        &&& field_decodes::<String>(json, "name"@, value.name)
        &&& field_decodes::<UserReference>(json, "owner"@, value.owner)
        &&& field_decodes::<Option<String>>(json, "primary_color"@, value.primary_color)
        &&& field_decodes::<Option<bool>>(json, "public"@, value.public)
        &&& field_decodes::<String>(json, "snapshot_id"@, value.snapshot_id)
        &&& field_decodes::<Option<TrackReference>>(json, "tracks"@, value.tracks)
        &&& field_decodes::<ItemType>(json, "type"@, value.type_)
        &&& field_decodes::<String>(json, "uri"@, value.uri)
    }

    open spec fn defect(json: JsonValue) -> Option<DecodeError> {
        if field_defect::<bool>(json, "collaborative"@) is Some {
            field_defect::<bool>(json, "collaborative"@)
        } else if field_defect::<Option<String>>(json, "description"@) is Some {
            field_defect::<Option<String>>(json, "description"@)
        } else if field_defect::<ExternalUrls>(json, "external_urls"@) is Some {
            field_defect::<ExternalUrls>(json, "external_urls"@)
        } else if field_defect::<String>(json, "href"@) is Some {
            field_defect::<String>(json, "href"@)
        } else if field_defect::<String>(json, "id"@) is Some {
            field_defect::<String>(json, "id"@)
        } else if field_defect::<Option<Vec<Image>>>(json, "images"@) is Some {
            field_defect::<Option<Vec<Image>>>(json, "images"@)
        } else if field_defect::<String>(json, "name"@) is Some {
            field_defect::<String>(json, "name"@)
        } else if field_defect::<UserReference>(json, "owner"@) is Some {
            field_defect::<UserReference>(json, "owner"@)
        } else if field_defect::<Option<String>>(json, "primary_color"@) is Some {
            field_defect::<Option<String>>(json, "primary_color"@)
        } else if field_defect::<Option<bool>>(json, "public"@) is Some {
            field_defect::<Option<bool>>(json, "public"@)
        } else if field_defect::<String>(json, "snapshot_id"@) is Some {
            field_defect::<String>(json, "snapshot_id"@)
        } else if field_defect::<Option<TrackReference>>(json, "tracks"@) is Some {
            field_defect::<Option<TrackReference>>(json, "tracks"@)
        } else if field_defect::<ItemType>(json, "type"@) is Some {
            field_defect::<ItemType>(json, "type"@)
        } else {
            field_defect::<String>(json, "uri"@)
        }
    }

    open spec fn spec_target() -> Seq<char> {
        "SimplifiedPlaylist"@
    }

    fn target() -> (r: &'static str) {
        "SimplifiedPlaylist"
    }

    fn from_json(json: &Json) -> (r: Result<Self, DecodeError>) {
        let collaborative = field::<bool>(json, "collaborative")?;
        let description = field::<Option<String>>(json, "description")?;
        let external_urls = field::<ExternalUrls>(json, "external_urls")?;
        let href = field::<String>(json, "href")?;
        let id = field::<String>(json, "id")?;
        let images = field::<Option<Vec<Image>>>(json, "images")?;
        let name = field::<String>(json, "name")?;
        let owner = field::<UserReference>(json, "owner")?;
        let primary_color = field::<Option<String>>(json, "primary_color")?;
        let public = field::<Option<bool>>(json, "public")?;
        let snapshot_id = field::<String>(json, "snapshot_id")?;
        let tracks = field::<Option<TrackReference>>(json, "tracks")?;
        let type_ = field::<ItemType>(json, "type")?;
        let uri = field::<String>(json, "uri")?;
        Ok(SimplifiedPlaylist { collaborative, description, external_urls, href, id, images, name, owner, primary_color, public, snapshot_id, tracks, type_, uri })
    }
}

impl vstd::std_specs::convert::FromSpecImpl<Playlist> for SimplifiedPlaylist {
    open spec fn obeys_from_spec() -> bool {
        true
    }

    open spec fn from_spec(playlist: Playlist) -> Self {
        SimplifiedPlaylist {
            collaborative: playlist.collaborative,
            description: playlist.description,
            external_urls: playlist.external_urls,
            href: playlist.href,
            id: playlist.id,
            images: playlist.images,
            name: playlist.name,
            owner: playlist.owner,
            primary_color: playlist.primary_color,
            public: playlist.public,
            snapshot_id: playlist.snapshot_id,
            tracks: Some(TrackReference { href: playlist.tracks.href, total: playlist.tracks.total }),
            type_: playlist.type_,
            uri: playlist.uri,
        }
    }
}

impl From<Playlist> for SimplifiedPlaylist {
    fn from(playlist: Playlist) -> (r: Self) {
        SimplifiedPlaylist {
            collaborative: playlist.collaborative,
            description: playlist.description,
            external_urls: playlist.external_urls,
            href: playlist.href,
            id: playlist.id,
            images: playlist.images,
            name: playlist.name,
            owner: playlist.owner,
            primary_color: playlist.primary_color,
            public: playlist.public,
            snapshot_id: playlist.snapshot_id,
            tracks: Some(TrackReference { href: playlist.tracks.href, total: playlist.tracks.total }),
            type_: playlist.type_,
            uri: playlist.uri,
        }
    }
}

/// A track or episode within a playlist.
///
/// Contains information about when the item was added, who added it,
/// whether it's a local file, and the track/episode details.
#[derive(Debug, Clone, PartialEq, Eq)]
pub struct PlaylistTrack {
    /// The date and time the track or episode was added.
    /// Note: some very old playlists may return None in this field.
    pub added_at: Option<String>,
    /// The Spotify user who added the track or episode.
    ///
    /// # Note
    /// Some very old playlists may return None in this field.
    pub added_by: Option<AddedBy>,
    /// Whether this track or episode is a [local file](https://developer.spotify.com/documentation/web-api/concepts/playlists#local-files) or not.
    pub is_local: bool,
    /// Gradient color of the playlist's cover image.
    /// Will always be None as this is only used internally by Spotify.
    pub primary_color: Option<String>,
    pub video_thumbnail: Option<VideoThumbnail>,
    /// Information about the track or episode.
    pub track: TrackItem,
}

impl FromJson for PlaylistTrack {
    open spec fn decodes(json: JsonValue, value: Self) -> bool {
        &&& field_decodes::<Option<String>>(json, "added_at"@, value.added_at)
        &&& field_decodes::<Option<AddedBy>>(json, "added_by"@, value.added_by)
        &&& field_decodes::<bool>(json, "is_local"@, value.is_local)
        &&& field_decodes::<Option<String>>(json, "primary_color"@, value.primary_color)
        &&& field_decodes::<Option<VideoThumbnail>>(json, "video_thumbnail"@, value.video_thumbnail)
        &&& field_decodes::<TrackItem>(json, "track"@, value.track)
    }

    open spec fn defect(json: JsonValue) -> Option<DecodeError> {
        if field_defect::<Option<String>>(json, "added_at"@) is Some {
            field_defect::<Option<String>>(json, "added_at"@)
        } else if field_defect::<Option<AddedBy>>(json, "added_by"@) is Some {
            field_defect::<Option<AddedBy>>(json, "added_by"@)
        } else if field_defect::<bool>(json, "is_local"@) is Some {
            field_defect::<bool>(json, "is_local"@)
        } else if field_defect::<Option<String>>(json, "primary_color"@) is Some {
            field_defect::<Option<String>>(json, "primary_color"@)
        } else if field_defect::<Option<VideoThumbnail>>(json, "video_thumbnail"@) is Some {
            field_defect::<Option<VideoThumbnail>>(json, "video_thumbnail"@)
        } else {
            field_defect::<TrackItem>(json, "track"@)
        }
    }

    open spec fn spec_target() -> Seq<char> {
        "PlaylistTrack"@
    }

    fn target() -> (r: &'static str) {
        "PlaylistTrack"
    }

    fn from_json(json: &Json) -> (r: Result<Self, DecodeError>) {
        let added_at = field::<Option<String>>(json, "added_at")?;
        let added_by = field::<Option<AddedBy>>(json, "added_by")?;
        let is_local = field::<bool>(json, "is_local")?;
        let primary_color = field::<Option<String>>(json, "primary_color")?;
        let video_thumbnail = field::<Option<VideoThumbnail>>(json, "video_thumbnail")?;
        let track = field::<TrackItem>(json, "track")?;
        Ok(PlaylistTrack { added_at, added_by, is_local, primary_color, video_thumbnail, track })
    }
}

/// Information about the user who added a track or episode to a playlist.
#[derive(Debug, Clone, PartialEq, Eq)]
pub struct AddedBy {
    /// Known public external URLs for this user.
    pub external_urls: ExternalUrls,
    /// Information about the followers of this user.
    pub followers: Option<Followers>,
    /// A link to the Web API endpoint for this user.
    pub href: String,
    /// The [Spotify user ID](https://developer.spotify.com/documentation/web-api/concepts/spotify-uris-ids) for the user.
    pub id: String,
    /// The object type.
    pub type_: ItemType,
    /// The [Spotify URI](https://developer.spotify.com/documentation/web-api/concepts/spotify-uris-ids) for the user.
    pub uri: String,
}

impl FromJson for AddedBy {
    open spec fn decodes(json: JsonValue, value: Self) -> bool {
        &&& field_decodes::<ExternalUrls>(json, "external_urls"@, value.external_urls)
        &&& field_decodes::<Option<Followers>>(json, "followers"@, value.followers)
        &&& field_decodes::<String>(json, "href"@, value.href)
        &&& field_decodes::<String>(json, "id"@, value.id)
        &&& field_decodes::<ItemType>(json, "type"@, value.type_)
        &&& field_decodes::<String>(json, "uri"@, value.uri)
    }

    open spec fn defect(json: JsonValue) -> Option<DecodeError> {
        if field_defect::<ExternalUrls>(json, "external_urls"@) is Some {
            field_defect::<ExternalUrls>(json, "external_urls"@)
        } else if field_defect::<Option<Followers>>(json, "followers"@) is Some {
            field_defect::<Option<Followers>>(json, "followers"@)
        } else if field_defect::<String>(json, "href"@) is Some {
            field_defect::<String>(json, "href"@)
        } else if field_defect::<String>(json, "id"@) is Some {
            field_defect::<String>(json, "id"@)
        } else if field_defect::<ItemType>(json, "type"@) is Some {
            field_defect::<ItemType>(json, "type"@)
        } else {
            field_defect::<String>(json, "uri"@)
        }
    }

    open spec fn spec_target() -> Seq<char> {
        "AddedBy"@
    }

    fn target() -> (r: &'static str) {
        "AddedBy"
    }

    fn from_json(json: &Json) -> (r: Result<Self, DecodeError>) {
        let external_urls = field::<ExternalUrls>(json, "external_urls")?;
        let followers = field::<Option<Followers>>(json, "followers")?;
        let href = field::<String>(json, "href")?;
        let id = field::<String>(json, "id")?;
        let type_ = field::<ItemType>(json, "type")?;
        let uri = field::<String>(json, "uri")?;
        Ok(AddedBy { external_urls, followers, href, id, type_, uri })
    }
}

/// A playlist snapshot identifier.
///
/// Returned after modifying a playlist to identify the specific version.
/// Can be used in subsequent requests to target a specific playlist state.
#[derive(Debug, Clone, PartialEq, Eq)]
pub struct SnapshotId {
    /// The version identifier for the current playlist.
    /// Can be supplied in other requests to target a specific playlist version.
    pub snapshot_id: String,
}

impl FromJson for SnapshotId {
    open spec fn decodes(json: JsonValue, value: Self) -> bool {
        &&& field_decodes::<String>(json, "snapshot_id"@, value.snapshot_id)
    }

    open spec fn defect(json: JsonValue) -> Option<DecodeError> {
        field_defect::<String>(json, "snapshot_id"@)
    }

    open spec fn spec_target() -> Seq<char> {
        "SnapshotId"@
    }

    fn target() -> (r: &'static str) {
        "SnapshotId"
    }

    fn from_json(json: &Json) -> (r: Result<Self, DecodeError>) {
        let snapshot_id = field::<String>(json, "snapshot_id")?;
        Ok(SnapshotId { snapshot_id })
    }
}

} // verus!
