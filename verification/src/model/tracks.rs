//! Tracks.

use vstd::prelude::*;
use vstd::string::*;
use crate::api::error::DecodeError;
use crate::decode::{field, field_decodes, field_defect, list, list_decodes, list_defect, FromJson};
use crate::json::{Json, JsonValue};
use crate::model::albums::SimplifiedAlbum;
use crate::model::artists::SimplifiedArtist;
use crate::model::markets::Market;
use crate::model::misc::ExternalIds;
use crate::model::misc::ExternalUrls;
use crate::model::misc::ItemType;
use crate::model::misc::Restrictions;

verus! {

/// Linked track information for re-linked tracks.
///
/// Part of the response when Track Relinking is applied.
#[derive(Debug, Clone, PartialEq, Eq)]
pub struct LinkedFrom {
    /// Known external URLs for this item.
    pub external_urls: Option<ExternalUrls>,
    /// A link to the Web API endpoint providing full details of the item.
    pub href: Option<String>,
    /// The [Spotify ID](https://developer.spotify.com/documentation/web-api/concepts/spotify-uris-ids) for the item.
    pub id: Option<String>,
    /// The object type.
    pub type_: Option<ItemType>,
    /// The [Spotify URI](https://developer.spotify.com/documentation/web-api/concepts/spotify-uris-ids) for the item.
    pub uri: Option<String>,
}

impl FromJson for LinkedFrom {
    open spec fn decodes(json: JsonValue, value: Self) -> bool {
        &&& field_decodes::<Option<ExternalUrls>>(json, "external_urls"@, value.external_urls)
        &&& field_decodes::<Option<String>>(json, "href"@, value.href)
        &&& field_decodes::<Option<String>>(json, "id"@, value.id)
        &&& field_decodes::<Option<ItemType>>(json, "type"@, value.type_)
        &&& field_decodes::<Option<String>>(json, "uri"@, value.uri)
    }

    open spec fn defect(json: JsonValue) -> Option<DecodeError> {
        if field_defect::<Option<ExternalUrls>>(json, "external_urls"@) is Some {
            field_defect::<Option<ExternalUrls>>(json, "external_urls"@)
        } else if field_defect::<Option<String>>(json, "href"@) is Some {
            field_defect::<Option<String>>(json, "href"@)
        } else if field_defect::<Option<String>>(json, "id"@) is Some {
            field_defect::<Option<String>>(json, "id"@)
        } else if field_defect::<Option<ItemType>>(json, "type"@) is Some {
            field_defect::<Option<ItemType>>(json, "type"@)
        } else {
            field_defect::<Option<String>>(json, "uri"@)
        }
    }

    open spec fn spec_target() -> Seq<char> {
        "LinkedFrom"@
    }

    fn target() -> (r: &'static str) {
        "LinkedFrom"
    }

    fn from_json(json: &Json) -> (r: Result<Self, DecodeError>) {
        let external_urls = field::<Option<ExternalUrls>>(json, "external_urls")?;
        let href = field::<Option<String>>(json, "href")?;
        let id = field::<Option<String>>(json, "id")?;
        let type_ = field::<Option<ItemType>>(json, "type")?;
        let uri = field::<Option<String>>(json, "uri")?;
        Ok(LinkedFrom { external_urls, href, id, type_, uri })
    }
}

/// A full track object from the Spotify catalog.
#[derive(Debug, Clone, PartialEq, Eq)]
pub struct Track {
    /// The album on which the track appears. The album object includes a link in href to full information about the album.
    pub album: SimplifiedAlbum,
    /// The artists who performed the track. Each artist object includes a link in href to more detailed information about the artist.
    pub artists: Vec<SimplifiedArtist>,
    /// A list of the countries in which the track can be played, identified by their ISO 3166-1 alpha-2 code.
    pub available_markets: Vec<Market>,
    /// The disc number (usually 1 unless the album consists of more than one disc).
    pub disc_number: u8,
    /// The track length in milliseconds.
    pub duration_ms: u32,
    /// Whether or not the track has explicit lyrics ( true = yes it does; false = no it does not OR unknown).
    pub explicit: bool,
    /// Known external IDs for the track.
    pub external_ids: ExternalIds,
    /// Known external URLs for this track.
    pub external_urls: ExternalUrls,
    /// A link to the Web API endpoint providing full details of the track.
    pub href: String,
    /// The [Spotify ID](https://developer.spotify.com/documentation/web-api/concepts/spotify-uris-ids) for the track.
    pub id: String,
    /// Part of the response when Track Relinking is applied. If true, the track is playable in the given market. Otherwise false.
    pub is_playable: Option<bool>,
    /// Part of the response when Track Relinking is applied, and the requested track has been replaced with different track.
    /// The track in the `linked_from` object contains information about the originally requested track.
    pub linked_from: Option<LinkedFrom>,
    /// Included in the response when a content restriction is applied.
    pub restrictions: Option<Restrictions>,
    /// The name of the track.
    pub name: String,
    /// The popularity of a track is a value between 0 and 100, with 100 being the most popular.
    pub popularity: u8,
    /// The number of the track. If an album has several discs, the track number is the number on the specified disc.
    pub track_number: u32,
    /// The object type.
    ///
    /// Allowed values: "track"
    pub type_: ItemType,
    /// The [Spotify URI](https://developer.spotify.com/documentation/web-api/concepts/spotify-uris-ids) for the track.
    pub uri: String,
    /// Whether or not the track is from a local file.
    pub is_local: bool,
}

impl FromJson for Track {
    open spec fn decodes(json: JsonValue, value: Self) -> bool {
        &&& field_decodes::<SimplifiedAlbum>(json, "album"@, value.album)
        &&& field_decodes::<Vec<SimplifiedArtist>>(json, "artists"@, value.artists)
        &&& list_decodes::<Market>(json, "available_markets"@, value.available_markets)
        &&& field_decodes::<u8>(json, "disc_number"@, value.disc_number)
        &&& field_decodes::<u32>(json, "duration_ms"@, value.duration_ms)
        &&& field_decodes::<bool>(json, "explicit"@, value.explicit)
        &&& field_decodes::<ExternalIds>(json, "external_ids"@, value.external_ids)
        &&& field_decodes::<ExternalUrls>(json, "external_urls"@, value.external_urls)
        &&& field_decodes::<String>(json, "href"@, value.href)
        &&& field_decodes::<String>(json, "id"@, value.id)
        &&& field_decodes::<Option<bool>>(json, "is_playable"@, value.is_playable)
        &&& field_decodes::<Option<LinkedFrom>>(json, "linked_from"@, value.linked_from)
        &&& field_decodes::<Option<Restrictions>>(json, "restrictions"@, value.restrictions)
        &&& field_decodes::<String>(json, "name"@, value.name)
        &&& field_decodes::<u8>(json, "popularity"@, value.popularity)
        &&& field_decodes::<u32>(json, "track_number"@, value.track_number)
        &&& field_decodes::<ItemType>(json, "type"@, value.type_)
        &&& field_decodes::<String>(json, "uri"@, value.uri)
        &&& field_decodes::<bool>(json, "is_local"@, value.is_local)
    }

    open spec fn defect(json: JsonValue) -> Option<DecodeError> {
        if field_defect::<SimplifiedAlbum>(json, "album"@) is Some {
            field_defect::<SimplifiedAlbum>(json, "album"@)
        } else if field_defect::<Vec<SimplifiedArtist>>(json, "artists"@) is Some {
            field_defect::<Vec<SimplifiedArtist>>(json, "artists"@)
        } else if list_defect::<Market>(json, "available_markets"@) is Some {
            list_defect::<Market>(json, "available_markets"@)
        } else if field_defect::<u8>(json, "disc_number"@) is Some {
            field_defect::<u8>(json, "disc_number"@)
        } else if field_defect::<u32>(json, "duration_ms"@) is Some {
            field_defect::<u32>(json, "duration_ms"@)
        } else if field_defect::<bool>(json, "explicit"@) is Some {
            field_defect::<bool>(json, "explicit"@)
        } else if field_defect::<ExternalIds>(json, "external_ids"@) is Some {
            field_defect::<ExternalIds>(json, "external_ids"@)
        } else if field_defect::<ExternalUrls>(json, "external_urls"@) is Some {
            field_defect::<ExternalUrls>(json, "external_urls"@)
        } else if field_defect::<String>(json, "href"@) is Some {
            field_defect::<String>(json, "href"@)
        } else if field_defect::<String>(json, "id"@) is Some {
            field_defect::<String>(json, "id"@)
        } else if field_defect::<Option<bool>>(json, "is_playable"@) is Some {
            field_defect::<Option<bool>>(json, "is_playable"@)
        } else if field_defect::<Option<LinkedFrom>>(json, "linked_from"@) is Some {
            field_defect::<Option<LinkedFrom>>(json, "linked_from"@)
        } else if field_defect::<Option<Restrictions>>(json, "restrictions"@) is Some {
            field_defect::<Option<Restrictions>>(json, "restrictions"@)
        } else if field_defect::<String>(json, "name"@) is Some {
            field_defect::<String>(json, "name"@)
        } else if field_defect::<u8>(json, "popularity"@) is Some {
            field_defect::<u8>(json, "popularity"@)
        } else if field_defect::<u32>(json, "track_number"@) is Some {
            field_defect::<u32>(json, "track_number"@)
        } else if field_defect::<ItemType>(json, "type"@) is Some {
            field_defect::<ItemType>(json, "type"@)
        } else if field_defect::<String>(json, "uri"@) is Some {
            field_defect::<String>(json, "uri"@)
        } else {
            field_defect::<bool>(json, "is_local"@)
        }
    }

    open spec fn spec_target() -> Seq<char> {
        "Track"@
    }

    fn target() -> (r: &'static str) {
        "Track"
    }

    fn from_json(json: &Json) -> (r: Result<Self, DecodeError>) {
        let album = field::<SimplifiedAlbum>(json, "album")?;
        let artists = field::<Vec<SimplifiedArtist>>(json, "artists")?;
        let available_markets = list::<Market>(json, "available_markets")?;
        let disc_number = field::<u8>(json, "disc_number")?;
        let duration_ms = field::<u32>(json, "duration_ms")?;
        let explicit = field::<bool>(json, "explicit")?;
        let external_ids = field::<ExternalIds>(json, "external_ids")?;
        let external_urls = field::<ExternalUrls>(json, "external_urls")?;
        let href = field::<String>(json, "href")?;
        let id = field::<String>(json, "id")?;
        let is_playable = field::<Option<bool>>(json, "is_playable")?;
        let linked_from = field::<Option<LinkedFrom>>(json, "linked_from")?;
        let restrictions = field::<Option<Restrictions>>(json, "restrictions")?;
        let name = field::<String>(json, "name")?;
        let popularity = field::<u8>(json, "popularity")?;
        let track_number = field::<u32>(json, "track_number")?;
        let type_ = field::<ItemType>(json, "type")?;
        let uri = field::<String>(json, "uri")?;
        let is_local = field::<bool>(json, "is_local")?;
        Ok(Track { album, artists, available_markets, disc_number, duration_ms, explicit, external_ids, external_urls, href, id, is_playable, linked_from, restrictions, name, popularity, track_number, type_, uri, is_local })
    }
}

/// Simplified track.
#[derive(Debug, Clone, PartialEq, Eq)]
pub struct SimplifiedTrack {
    /// The album on which the track appears. The album object includes a link in href to full information about the album.
    pub album: Option<SimplifiedAlbum>,
    /// The artists who performed the track. Each artist object includes a link in href to more detailed information about the artist.
    pub artists: Vec<SimplifiedArtist>,
    /// A list of the countries in which the track can be played, identified by their ISO 3166-1 alpha-2 code.
    pub available_markets: Vec<Market>,
    /// The disc number (usually 1 unless the album consists of more than one disc).
    pub disc_number: u8,
    /// The track length in milliseconds.
    pub duration_ms: u32,
    /// Whether or not the track has explicit lyrics ( true = yes it does; false = no it does not OR unknown).
    pub explicit: bool,
    /// Known external URLs for this track.
    pub external_urls: ExternalUrls,
    /// A link to the Web API endpoint providing full details of the track.
    pub href: String,
    /// The [Spotify ID](https://developer.spotify.com/documentation/web-api/concepts/spotify-uris-ids) for the track.
    pub id: String,
    /// Part of the response when Track Relinking is applied. If true, the track is playable in the given market. Otherwise false.
    pub is_playable: Option<bool>,
    /// Part of the response when Track Relinking is applied, and the requested track has been replaced with different track.
    /// The track in the `linked_from` object contains information about the originally requested track.
    pub linked_from: Option<LinkedFrom>,
    /// Included in the response when a content restriction is applied.
    pub restrictions: Option<Restrictions>,
    /// The name of the track.
    pub name: String,
    /// The number of the track. If an album has several discs, the track number is the number on the specified disc.
    pub track_number: u32,
    /// The object type.
    ///
    /// Allowed values: "track"
    pub type_: ItemType,
    /// The [Spotify URI](https://developer.spotify.com/documentation/web-api/concepts/spotify-uris-ids) for the track.
    pub uri: String,
    /// Whether or not the track is from a local file.
    pub is_local: bool,
}

impl FromJson for SimplifiedTrack {
    open spec fn decodes(json: JsonValue, value: Self) -> bool {
        &&& field_decodes::<Option<SimplifiedAlbum>>(json, "album"@, value.album)
        &&& field_decodes::<Vec<SimplifiedArtist>>(json, "artists"@, value.artists)
        &&& list_decodes::<Market>(json, "available_markets"@, value.available_markets)
        &&& field_decodes::<u8>(json, "disc_number"@, value.disc_number)
        &&& field_decodes::<u32>(json, "duration_ms"@, value.duration_ms)
        &&& field_decodes::<bool>(json, "explicit"@, value.explicit)
        &&& field_decodes::<ExternalUrls>(json, "external_urls"@, value.external_urls)
        &&& field_decodes::<String>(json, "href"@, value.href)
        &&& field_decodes::<String>(json, "id"@, value.id)
        &&& field_decodes::<Option<bool>>(json, "is_playable"@, value.is_playable)
        &&& field_decodes::<Option<LinkedFrom>>(json, "linked_from"@, value.linked_from)
        &&& field_decodes::<Option<Restrictions>>(json, "restrictions"@, value.restrictions)
        &&& field_decodes::<String>(json, "name"@, value.name)
        &&& field_decodes::<u32>(json, "track_number"@, value.track_number)
        &&& field_decodes::<ItemType>(json, "type"@, value.type_)
        &&& field_decodes::<String>(json, "uri"@, value.uri)
        &&& field_decodes::<bool>(json, "is_local"@, value.is_local)
    }

    open spec fn defect(json: JsonValue) -> Option<DecodeError> {
        if field_defect::<Option<SimplifiedAlbum>>(json, "album"@) is Some {
            field_defect::<Option<SimplifiedAlbum>>(json, "album"@)
        } else if field_defect::<Vec<SimplifiedArtist>>(json, "artists"@) is Some {
            field_defect::<Vec<SimplifiedArtist>>(json, "artists"@)
        } else if list_defect::<Market>(json, "available_markets"@) is Some {
            list_defect::<Market>(json, "available_markets"@)
        } else if field_defect::<u8>(json, "disc_number"@) is Some {
            field_defect::<u8>(json, "disc_number"@)
        } else if field_defect::<u32>(json, "duration_ms"@) is Some {
            field_defect::<u32>(json, "duration_ms"@)
        } else if field_defect::<bool>(json, "explicit"@) is Some {
            field_defect::<bool>(json, "explicit"@)
        } else if field_defect::<ExternalUrls>(json, "external_urls"@) is Some {
            field_defect::<ExternalUrls>(json, "external_urls"@)
        } else if field_defect::<String>(json, "href"@) is Some {
            field_defect::<String>(json, "href"@)
        } else if field_defect::<String>(json, "id"@) is Some {
            field_defect::<String>(json, "id"@)
        } else if field_defect::<Option<bool>>(json, "is_playable"@) is Some {
            field_defect::<Option<bool>>(json, "is_playable"@)
        } else if field_defect::<Option<LinkedFrom>>(json, "linked_from"@) is Some {
            field_defect::<Option<LinkedFrom>>(json, "linked_from"@)
        } else if field_defect::<Option<Restrictions>>(json, "restrictions"@) is Some {
            field_defect::<Option<Restrictions>>(json, "restrictions"@)
        } else if field_defect::<String>(json, "name"@) is Some {
            field_defect::<String>(json, "name"@)
        } else if field_defect::<u32>(json, "track_number"@) is Some {
            field_defect::<u32>(json, "track_number"@)
        } else if field_defect::<ItemType>(json, "type"@) is Some {
            field_defect::<ItemType>(json, "type"@)
        } else if field_defect::<String>(json, "uri"@) is Some {
            field_defect::<String>(json, "uri"@)
        } else {
            field_defect::<bool>(json, "is_local"@)
        }
    }

    open spec fn spec_target() -> Seq<char> {
        "SimplifiedTrack"@
    }

    fn target() -> (r: &'static str) {
        "SimplifiedTrack"
    }

    fn from_json(json: &Json) -> (r: Result<Self, DecodeError>) {
        let album = field::<Option<SimplifiedAlbum>>(json, "album")?;
        let artists = field::<Vec<SimplifiedArtist>>(json, "artists")?;
        let available_markets = list::<Market>(json, "available_markets")?;
        let disc_number = field::<u8>(json, "disc_number")?;
        let duration_ms = field::<u32>(json, "duration_ms")?;
        let explicit = field::<bool>(json, "explicit")?;
        let external_urls = field::<ExternalUrls>(json, "external_urls")?;
        let href = field::<String>(json, "href")?;
        let id = field::<String>(json, "id")?;
        let is_playable = field::<Option<bool>>(json, "is_playable")?;
        let linked_from = field::<Option<LinkedFrom>>(json, "linked_from")?;
        let restrictions = field::<Option<Restrictions>>(json, "restrictions")?;
        let name = field::<String>(json, "name")?;
        let track_number = field::<u32>(json, "track_number")?;
        let type_ = field::<ItemType>(json, "type")?;
        let uri = field::<String>(json, "uri")?;
        let is_local = field::<bool>(json, "is_local")?;
        Ok(SimplifiedTrack { album, artists, available_markets, disc_number, duration_ms, explicit, external_urls, href, id, is_playable, linked_from, restrictions, name, track_number, type_, uri, is_local })
    }
}

impl vstd::std_specs::convert::FromSpecImpl<Track> for SimplifiedTrack {
    open spec fn obeys_from_spec() -> bool {
        true
    }

    open spec fn from_spec(track: Track) -> Self {
        SimplifiedTrack {
            album: Some(track.album),
            artists: track.artists,
            available_markets: track.available_markets,
            disc_number: track.disc_number,
            duration_ms: track.duration_ms,
            explicit: track.explicit,
            external_urls: track.external_urls,
            href: track.href,
            id: track.id,
            is_playable: track.is_playable,
            linked_from: track.linked_from,
            restrictions: track.restrictions,
            name: track.name,
            track_number: track.track_number,
            type_: track.type_,
            uri: track.uri,
            is_local: track.is_local,
        }
    }
}

impl From<Track> for SimplifiedTrack {
    fn from(track: Track) -> (r: Self) {
        SimplifiedTrack {
            album: Some(track.album),
            artists: track.artists,
            available_markets: track.available_markets,
            disc_number: track.disc_number,
            duration_ms: track.duration_ms,
            explicit: track.explicit,
            external_urls: track.external_urls,
            href: track.href,
            id: track.id,
            is_playable: track.is_playable,
            linked_from: track.linked_from,
            restrictions: track.restrictions,
            name: track.name,
            track_number: track.track_number,
            type_: track.type_,
            uri: track.uri,
            is_local: track.is_local,
        }
    }
}

/// Saved track.
#[derive(Debug, Clone, PartialEq, Eq)]
pub struct SavedTrack {
    /// The date and time the track was saved.
    /// Timestamps are returned in ISO 8601 format as Coordinated Universal Time (UTC) with a zero offset: YYYY-MM-DDTHH:MM:SSZ.
    /// If the time is imprecise (for example, the date/time of an album release), an additional field indicates the precision;
    /// see for example, `release_date` in an album object.
    pub added_at: String,
    /// Information about the track.
    pub track: Track,
}

impl FromJson for SavedTrack {
    open spec fn decodes(json: JsonValue, value: Self) -> bool {
        &&& field_decodes::<String>(json, "added_at"@, value.added_at)
        &&& field_decodes::<Track>(json, "track"@, value.track)
    }

    open spec fn defect(json: JsonValue) -> Option<DecodeError> {
        if field_defect::<String>(json, "added_at"@) is Some {
            field_defect::<String>(json, "added_at"@)
        } else {
            field_defect::<Track>(json, "track"@)
        }
    }

    open spec fn spec_target() -> Seq<char> {
        "SavedTrack"@
    }

    fn target() -> (r: &'static str) {
        "SavedTrack"
    }

    fn from_json(json: &Json) -> (r: Result<Self, DecodeError>) {
        let added_at = field::<String>(json, "added_at")?;
        let track = field::<Track>(json, "track")?;
        Ok(SavedTrack { added_at, track })
    }
}

/// Spotify catalog information for several tracks.
#[derive(Debug, Clone, PartialEq, Eq)]
pub struct Tracks {
    pub tracks: Vec<Option<Track>>,
}

impl FromJson for Tracks {
    open spec fn decodes(json: JsonValue, value: Self) -> bool {
        &&& field_decodes::<Vec<Option<Track>>>(json, "tracks"@, value.tracks)
    }

    open spec fn defect(json: JsonValue) -> Option<DecodeError> {
        field_defect::<Vec<Option<Track>>>(json, "tracks"@)
    }

    open spec fn spec_target() -> Seq<char> {
        "Tracks"@
    }

    fn target() -> (r: &'static str) {
        "Tracks"
    }

    fn from_json(json: &Json) -> (r: Result<Self, DecodeError>) {
        let tracks = field::<Vec<Option<Track>>>(json, "tracks")?;
        Ok(Tracks { tracks })
    }
}

/// Track reference.
#[derive(Debug, Clone, PartialEq, Eq)]
pub struct TrackReference {
    /// A link to the Web API endpoint where full details of the playlist's tracks can be retrieved.
    pub href: String,
    /// Number of tracks in the playlist.
    pub total: usize,
}

impl FromJson for TrackReference {
    open spec fn decodes(json: JsonValue, value: Self) -> bool {
        &&& field_decodes::<String>(json, "href"@, value.href)
        &&& field_decodes::<usize>(json, "total"@, value.total)
    }

    open spec fn defect(json: JsonValue) -> Option<DecodeError> {
        if field_defect::<String>(json, "href"@) is Some {
            field_defect::<String>(json, "href"@)
        } else {
            field_defect::<usize>(json, "total"@)
        }
    }

    open spec fn spec_target() -> Seq<char> {
        "TrackReference"@
    }

    fn target() -> (r: &'static str) {
        "TrackReference"
    }

    fn from_json(json: &Json) -> (r: Result<Self, DecodeError>) {
        let href = field::<String>(json, "href")?;
        let total = field::<usize>(json, "total")?;
        Ok(TrackReference { href, total })
    }
}

} // verus!
