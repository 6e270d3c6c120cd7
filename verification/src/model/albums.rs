//! Albums.

use vstd::prelude::*;
use vstd::string::*;
use crate::api::error::DecodeError;
use crate::decode::{field, field_decodes, field_defect, list, list_decodes, list_defect, FromJson};
use crate::json::{lemma_json_view, Json, JsonValue};
use crate::text::str_eq;
use crate::model::artists::SimplifiedArtist;
use crate::model::markets::Market;
use crate::model::misc::Copyright;
use crate::model::misc::ExternalIds;
use crate::model::misc::ExternalUrls;
use crate::model::misc::Image;
use crate::model::misc::ItemType;
use crate::model::misc::Page;
use crate::model::misc::ReleaseDatePrecision;
use crate::model::misc::Restrictions;
use crate::model::tracks::SimplifiedTrack;
use crate::api::params::ParamValue;

verus! {

/// The type of an album.
#[derive(Debug, Clone, Copy, PartialEq, Eq, Structural)]
pub enum AlbumType {
    Album,
    Single,
    Compilation,
    AppearsOn,
}

impl AlbumType {
    /// The value that the service writes as `text`.
    pub open spec fn named(text: Seq<char>) -> Option<Self> {
        if text == "album"@ {
            Some(AlbumType::Album)
        }         else if text == "ALBUM"@ {
            Some(AlbumType::Album)
        }         else if text == "single"@ {
            Some(AlbumType::Single)
        }         else if text == "SINGLE"@ {
            Some(AlbumType::Single)
        }         else if text == "compilation"@ {
            Some(AlbumType::Compilation)
        }         else if text == "COMPILATION"@ {
            Some(AlbumType::Compilation)
        }         else if text == "appears_on"@ {
            Some(AlbumType::AppearsOn)
        }         else if text == "APPEARS_ON"@ {
            Some(AlbumType::AppearsOn)
        } else {
            None
        }
    }

    /// The value that the service writes as `text`.
    pub fn from_name(text: &str) -> (r: Option<Self>)
        ensures
            r == Self::named(text@),
    {
        if str_eq(text, "album") {
            Some(AlbumType::Album)
        }         else if str_eq(text, "ALBUM") {
            Some(AlbumType::Album)
        }         else if str_eq(text, "single") {
            Some(AlbumType::Single)
        }         else if str_eq(text, "SINGLE") {
            Some(AlbumType::Single)
        }         else if str_eq(text, "compilation") {
            Some(AlbumType::Compilation)
        }         else if str_eq(text, "COMPILATION") {
            Some(AlbumType::Compilation)
        }         else if str_eq(text, "appears_on") {
            Some(AlbumType::AppearsOn)
        }         else if str_eq(text, "APPEARS_ON") {
            Some(AlbumType::AppearsOn)
        } else {
            None
        }
    }
}

impl FromJson for AlbumType {
    open spec fn decodes(json: JsonValue, value: Self) -> bool {
        json matches JsonValue::Str(text) && Self::named(text) == Some(value)
    }

    open spec fn defect(json: JsonValue) -> Option<DecodeError> {
        match json {
            JsonValue::Str(text) => if Self::named(text) is Some {
                None
            } else {
                Some(DecodeError::UnknownVariant)
            },
            _ => Some(DecodeError::ExpectedString),
        }
    }

    open spec fn spec_target() -> Seq<char> {
        "AlbumType"@
    }

    fn target() -> (r: &'static str) {
        "AlbumType"
    }

    fn from_json(json: &Json) -> (r: Result<Self, DecodeError>) {
        proof {
            lemma_json_view(*json);
        }
        match json {
            Json::Str(text) => match Self::from_name(text.as_str()) {
                Some(value) => Ok(value),
                None => Err(DecodeError::UnknownVariant),
            },
            _ => Err(DecodeError::ExpectedString),
        }
    }
}

impl AlbumType {
    /// The text that this value is displayed as.
    pub open spec fn spec_text(&self) -> Seq<char> {
        match self {
            AlbumType::Album => "Album"@,
            AlbumType::Single => "Single"@,
            AlbumType::Compilation => "Compilation"@,
            AlbumType::AppearsOn => "Appears on"@,
        }
    }

    /// The text that this value is displayed as.
    pub fn as_str(&self) -> (r: &'static str)
        ensures
            r@ == self.spec_text(),
    {
        match self {
            AlbumType::Album => "Album",
            AlbumType::Single => "Single",
            AlbumType::Compilation => "Compilation",
            AlbumType::AppearsOn => "Appears on",
        }
    }

    /// The text that this value is displayed as.
    pub fn to_string(&self) -> (r: String)
        ensures
            r@ == self.spec_text(),
    {
        String::from_str(self.as_str())
    }
}

/// A full album object from the Spotify catalog.
#[derive(Debug, Clone, PartialEq, Eq)]
pub struct Album {
    /// The type of the album.
    pub album_type: AlbumType,
    /// The number of tracks in the album.
    pub total_tracks: usize,
    /// The markets in which the album is available: [ISO 3166-1 alpha-2 country codes](http://en.wikipedia.org/wiki/ISO_3166-1_alpha-2).
    ///
    /// # Note
    /// An album is considered available in a market when at least 1 of its tracks is available in that market.
    pub available_markets: Vec<Market>,
    /// Known external URLs for this album.
    pub external_urls: ExternalUrls,
    /// A link to the Web API endpoint providing full details of the album.
    pub href: String,
    /// The [Spotify ID](https://developer.spotify.com/documentation/web-api/concepts/spotify-uris-ids) for the album.
    pub id: String,
    /// The cover art for the album in various sizes, widest first.
    pub images: Vec<Image>,
    /// The name of the album. In case of an album takedown, the value may be an empty string.
    pub name: String,
    /// The date the album was first released.
    ///
    /// Example: "1981-12"
    pub release_date: String,
    /// The precision with which `release_date` value is known.
    pub release_date_precision: ReleaseDatePrecision,
    /// Included in the response when a content restriction is applied.
    /// Albums may be restricted if the content is not available in a given market, to the user's subscription type, or when the user's account is set to not play explicit content. Additional reasons may be added in the future.
    pub restrictions: Option<Restrictions>,
    /// The object type.
    ///
    /// Allowed values: "album"
    pub type_: ItemType,
    /// The [Spotify URI](https://developer.spotify.com/documentation/web-api/concepts/spotify-uris-ids) for the album.
    pub uri: String,
    /// The artists of the album. Each artist object includes a link in href to more detailed information about the artist.
    pub artists: Vec<SimplifiedArtist>,
    /// The tracks of the album.
    pub tracks: Page<SimplifiedTrack>,
    /// The copyright statements of the album.
    pub copyrights: Vec<Copyright>,
    /// Known external IDs for the album.
    pub external_ids: ExternalIds,
    /// The label associated with the album.
    pub label: String,
    /// The popularity of the album. The value will be between 0 and 100, with 100 being the most popular.
    pub popularity: u8,
    /// This field describes the relationship between the artist and the album.
    pub album_group: Option<AlbumType>,
}

impl FromJson for Album {
    open spec fn decodes(json: JsonValue, value: Self) -> bool {
        &&& field_decodes::<AlbumType>(json, "album_type"@, value.album_type)
        &&& field_decodes::<usize>(json, "total_tracks"@, value.total_tracks)
        &&& list_decodes::<Market>(json, "available_markets"@, value.available_markets)
        &&& field_decodes::<ExternalUrls>(json, "external_urls"@, value.external_urls)
        &&& field_decodes::<String>(json, "href"@, value.href)
        &&& field_decodes::<String>(json, "id"@, value.id)
        &&& field_decodes::<Vec<Image>>(json, "images"@, value.images)
        &&& field_decodes::<String>(json, "name"@, value.name)
        &&& field_decodes::<String>(json, "release_date"@, value.release_date)
        &&& field_decodes::<ReleaseDatePrecision>(json, "release_date_precision"@, value.release_date_precision)
        &&& field_decodes::<Option<Restrictions>>(json, "restrictions"@, value.restrictions)
        &&& field_decodes::<ItemType>(json, "type"@, value.type_)
        &&& field_decodes::<String>(json, "uri"@, value.uri)
        &&& field_decodes::<Vec<SimplifiedArtist>>(json, "artists"@, value.artists)
        &&& field_decodes::<Page<SimplifiedTrack>>(json, "tracks"@, value.tracks)
        &&& field_decodes::<Vec<Copyright>>(json, "copyrights"@, value.copyrights)
        &&& field_decodes::<ExternalIds>(json, "external_ids"@, value.external_ids)
        &&& field_decodes::<String>(json, "label"@, value.label)
        &&& field_decodes::<u8>(json, "popularity"@, value.popularity)
        &&& field_decodes::<Option<AlbumType>>(json, "album_group"@, value.album_group)
    }

    open spec fn defect(json: JsonValue) -> Option<DecodeError> {
        if field_defect::<AlbumType>(json, "album_type"@) is Some {
            field_defect::<AlbumType>(json, "album_type"@)
        } else if field_defect::<usize>(json, "total_tracks"@) is Some {
            field_defect::<usize>(json, "total_tracks"@)
        } else if list_defect::<Market>(json, "available_markets"@) is Some {
            list_defect::<Market>(json, "available_markets"@)
        } else if field_defect::<ExternalUrls>(json, "external_urls"@) is Some {
            field_defect::<ExternalUrls>(json, "external_urls"@)
        } else if field_defect::<String>(json, "href"@) is Some {
            field_defect::<String>(json, "href"@)
        } else if field_defect::<String>(json, "id"@) is Some {
            field_defect::<String>(json, "id"@)
        } else if field_defect::<Vec<Image>>(json, "images"@) is Some {
            field_defect::<Vec<Image>>(json, "images"@)
        } else if field_defect::<String>(json, "name"@) is Some {
            field_defect::<String>(json, "name"@)
        } else if field_defect::<String>(json, "release_date"@) is Some {
            field_defect::<String>(json, "release_date"@)
        } else if field_defect::<ReleaseDatePrecision>(json, "release_date_precision"@) is Some {
            field_defect::<ReleaseDatePrecision>(json, "release_date_precision"@)
        } else if field_defect::<Option<Restrictions>>(json, "restrictions"@) is Some {
            field_defect::<Option<Restrictions>>(json, "restrictions"@)
        } else if field_defect::<ItemType>(json, "type"@) is Some {
            field_defect::<ItemType>(json, "type"@)
        } else if field_defect::<String>(json, "uri"@) is Some {
            field_defect::<String>(json, "uri"@)
        } else if field_defect::<Vec<SimplifiedArtist>>(json, "artists"@) is Some {
            field_defect::<Vec<SimplifiedArtist>>(json, "artists"@)
        } else if field_defect::<Page<SimplifiedTrack>>(json, "tracks"@) is Some {
            field_defect::<Page<SimplifiedTrack>>(json, "tracks"@)
        } else if field_defect::<Vec<Copyright>>(json, "copyrights"@) is Some {
            field_defect::<Vec<Copyright>>(json, "copyrights"@)
        } else if field_defect::<ExternalIds>(json, "external_ids"@) is Some {
            field_defect::<ExternalIds>(json, "external_ids"@)
        } else if field_defect::<String>(json, "label"@) is Some {
            field_defect::<String>(json, "label"@)
        } else if field_defect::<u8>(json, "popularity"@) is Some {
            field_defect::<u8>(json, "popularity"@)
        } else {
            field_defect::<Option<AlbumType>>(json, "album_group"@)
        }
    }

    open spec fn spec_target() -> Seq<char> {
        "Album"@
    }

    fn target() -> (r: &'static str) {
        "Album"
    }

    fn from_json(json: &Json) -> (r: Result<Self, DecodeError>) {
        let album_type = field::<AlbumType>(json, "album_type")?;
        let total_tracks = field::<usize>(json, "total_tracks")?;
        let available_markets = list::<Market>(json, "available_markets")?;
        let external_urls = field::<ExternalUrls>(json, "external_urls")?;
        let href = field::<String>(json, "href")?;
        let id = field::<String>(json, "id")?;
        let images = field::<Vec<Image>>(json, "images")?;
        let name = field::<String>(json, "name")?;
        let release_date = field::<String>(json, "release_date")?;
        let release_date_precision = field::<ReleaseDatePrecision>(json, "release_date_precision")?;
        let restrictions = field::<Option<Restrictions>>(json, "restrictions")?;
        let type_ = field::<ItemType>(json, "type")?;
        let uri = field::<String>(json, "uri")?;
        let artists = field::<Vec<SimplifiedArtist>>(json, "artists")?;
        let tracks = field::<Page<SimplifiedTrack>>(json, "tracks")?;
        let copyrights = field::<Vec<Copyright>>(json, "copyrights")?;
        let external_ids = field::<ExternalIds>(json, "external_ids")?;
        let label = field::<String>(json, "label")?;
        let popularity = field::<u8>(json, "popularity")?;
        let album_group = field::<Option<AlbumType>>(json, "album_group")?;
        Ok(Album { album_type, total_tracks, available_markets, external_urls, href, id, images, name, release_date, release_date_precision, restrictions, type_, uri, artists, tracks, copyrights, external_ids, label, popularity, album_group })
    }
}

/// Simplified album.
#[derive(Debug, Clone, PartialEq, Eq)]
pub struct SimplifiedAlbum {
    /// The type of the album.
    pub album_type: AlbumType,
    /// The number of tracks in the album.
    pub total_tracks: usize,
    /// The markets in which the album is available: [ISO 3166-1 alpha-2 country codes](http://en.wikipedia.org/wiki/ISO_3166-1_alpha-2).
    ///
    /// # Note
    /// An album is considered available in a market when at least 1 of its tracks is available in that market.
    pub available_markets: Vec<Market>,
    /// Known external URLs for this album.
    pub external_urls: ExternalUrls,
    /// A link to the Web API endpoint providing full details of the album.
    pub href: String,
    /// The [Spotify ID](https://developer.spotify.com/documentation/web-api/concepts/spotify-uris-ids) for the album.
    pub id: String,
    /// The cover art for the album in various sizes, widest first.
    pub images: Vec<Image>,
    /// The name of the album. In case of an album takedown, the value may be an empty string.
    pub name: String,
    /// The date the album was first released.
    ///
    /// Example: "1981-12"
    pub release_date: Option<String>,
    /// The precision with which `release_date` value is known.
    pub release_date_precision: Option<ReleaseDatePrecision>,
    /// Included in the response when a content restriction is applied.
    /// Albums may be restricted if the content is not available in a given market, to the user's subscription type, or when the user's account is set to not play explicit content. Additional reasons may be added in the future.
    pub restrictions: Option<Restrictions>,
    /// The object type.
    ///
    /// Allowed values: "album"
    pub type_: ItemType,
    /// The [Spotify URI](https://developer.spotify.com/documentation/web-api/concepts/spotify-uris-ids) for the album.
    pub uri: String,
    /// The artists of the album. Each artist object includes a link in href to more detailed information about the artist.
    pub artists: Vec<SimplifiedArtist>,
}

impl FromJson for SimplifiedAlbum {
    open spec fn decodes(json: JsonValue, value: Self) -> bool {
        &&& field_decodes::<AlbumType>(json, "album_type"@, value.album_type)
        &&& field_decodes::<usize>(json, "total_tracks"@, value.total_tracks)
        &&& list_decodes::<Market>(json, "available_markets"@, value.available_markets)
        &&& field_decodes::<ExternalUrls>(json, "external_urls"@, value.external_urls)
        &&& field_decodes::<String>(json, "href"@, value.href)
        &&& field_decodes::<String>(json, "id"@, value.id)
        &&& field_decodes::<Vec<Image>>(json, "images"@, value.images)
        &&& field_decodes::<String>(json, "name"@, value.name)
        &&& field_decodes::<Option<String>>(json, "release_date"@, value.release_date)
        &&& field_decodes::<Option<ReleaseDatePrecision>>(json, "release_date_precision"@, value.release_date_precision)
        &&& field_decodes::<Option<Restrictions>>(json, "restrictions"@, value.restrictions)
        &&& field_decodes::<ItemType>(json, "type"@, value.type_)
        &&& field_decodes::<String>(json, "uri"@, value.uri)
        &&& field_decodes::<Vec<SimplifiedArtist>>(json, "artists"@, value.artists)
    }

    open spec fn defect(json: JsonValue) -> Option<DecodeError> {
        if field_defect::<AlbumType>(json, "album_type"@) is Some {
            field_defect::<AlbumType>(json, "album_type"@)
        } else if field_defect::<usize>(json, "total_tracks"@) is Some {
            field_defect::<usize>(json, "total_tracks"@)
        } else if list_defect::<Market>(json, "available_markets"@) is Some {
            list_defect::<Market>(json, "available_markets"@)
        } else if field_defect::<ExternalUrls>(json, "external_urls"@) is Some {
            field_defect::<ExternalUrls>(json, "external_urls"@)
        } else if field_defect::<String>(json, "href"@) is Some {
            field_defect::<String>(json, "href"@)
        } else if field_defect::<String>(json, "id"@) is Some {
            field_defect::<String>(json, "id"@)
        } else if field_defect::<Vec<Image>>(json, "images"@) is Some {
            field_defect::<Vec<Image>>(json, "images"@)
        } else if field_defect::<String>(json, "name"@) is Some {
            field_defect::<String>(json, "name"@)
        } else if field_defect::<Option<String>>(json, "release_date"@) is Some {
            field_defect::<Option<String>>(json, "release_date"@)
        } else if field_defect::<Option<ReleaseDatePrecision>>(json, "release_date_precision"@) is Some {
            field_defect::<Option<ReleaseDatePrecision>>(json, "release_date_precision"@)
        } else if field_defect::<Option<Restrictions>>(json, "restrictions"@) is Some {
            field_defect::<Option<Restrictions>>(json, "restrictions"@)
        } else if field_defect::<ItemType>(json, "type"@) is Some {
            field_defect::<ItemType>(json, "type"@)
        } else if field_defect::<String>(json, "uri"@) is Some {
            field_defect::<String>(json, "uri"@)
        } else {
            field_defect::<Vec<SimplifiedArtist>>(json, "artists"@)
        }
    }

    open spec fn spec_target() -> Seq<char> {
        "SimplifiedAlbum"@
    }

    fn target() -> (r: &'static str) {
        "SimplifiedAlbum"
    }

    fn from_json(json: &Json) -> (r: Result<Self, DecodeError>) {
        let album_type = field::<AlbumType>(json, "album_type")?;
        let total_tracks = field::<usize>(json, "total_tracks")?;
        let available_markets = list::<Market>(json, "available_markets")?;
        let external_urls = field::<ExternalUrls>(json, "external_urls")?;
        let href = field::<String>(json, "href")?;
        let id = field::<String>(json, "id")?;
        let images = field::<Vec<Image>>(json, "images")?;
        let name = field::<String>(json, "name")?;
        let release_date = field::<Option<String>>(json, "release_date")?;
        let release_date_precision = field::<Option<ReleaseDatePrecision>>(json, "release_date_precision")?;
        let restrictions = field::<Option<Restrictions>>(json, "restrictions")?;
        let type_ = field::<ItemType>(json, "type")?;
        let uri = field::<String>(json, "uri")?;
        let artists = field::<Vec<SimplifiedArtist>>(json, "artists")?;
        Ok(SimplifiedAlbum { album_type, total_tracks, available_markets, external_urls, href, id, images, name, release_date, release_date_precision, restrictions, type_, uri, artists })
    }
}

impl vstd::std_specs::convert::FromSpecImpl<Album> for SimplifiedAlbum {
    open spec fn obeys_from_spec() -> bool {
        true
    }

    open spec fn from_spec(album: Album) -> Self {
        SimplifiedAlbum {
            album_type: album.album_type,
            total_tracks: album.total_tracks,
            available_markets: album.available_markets,
            external_urls: album.external_urls,
            href: album.href,
            id: album.id,
            images: album.images,
            name: album.name,
            release_date: Some(album.release_date),
            release_date_precision: Some(album.release_date_precision),
            restrictions: album.restrictions,
            type_: album.type_,
            uri: album.uri,
            artists: album.artists,
        }
    }
}

impl From<Album> for SimplifiedAlbum {
    fn from(album: Album) -> (r: Self) {
        SimplifiedAlbum {
            album_type: album.album_type,
            total_tracks: album.total_tracks,
            available_markets: album.available_markets,
            external_urls: album.external_urls,
            href: album.href,
            id: album.id,
            images: album.images,
            name: album.name,
            release_date: Some(album.release_date),
            release_date_precision: Some(album.release_date_precision),
            restrictions: album.restrictions,
            type_: album.type_,
            uri: album.uri,
            artists: album.artists,
        }
    }
}

/// Spotify catalog information for several albums
#[derive(Debug, Clone, PartialEq, Eq)]
pub struct Albums {
    pub albums: Vec<Option<Album>>,
}

impl FromJson for Albums {
    open spec fn decodes(json: JsonValue, value: Self) -> bool {
        &&& field_decodes::<Vec<Option<Album>>>(json, "albums"@, value.albums)
    }

    open spec fn defect(json: JsonValue) -> Option<DecodeError> {
        field_defect::<Vec<Option<Album>>>(json, "albums"@)
    }

    open spec fn spec_target() -> Seq<char> {
        "Albums"@
    }

    fn target() -> (r: &'static str) {
        "Albums"
    }

    fn from_json(json: &Json) -> (r: Result<Self, DecodeError>) {
        let albums = field::<Vec<Option<Album>>>(json, "albums")?;
        Ok(Albums { albums })
    }
}

/// Saved album.
#[derive(Debug, Clone, PartialEq, Eq)]
pub struct SavedAlbum {
    /// The date and time the track was saved.
    /// Timestamps are returned in ISO 8601 format as Coordinated Universal Time (UTC) with a zero offset: YYYY-MM-DDTHH:MM:SSZ.
    /// If the time is imprecise (for example, the date/time of an album release), an additional field indicates the precision;
    /// see for example, `release_date` in an album object.
    pub added_at: String,
    /// Information about the album.
    pub album: Album,
}

impl FromJson for SavedAlbum {
    open spec fn decodes(json: JsonValue, value: Self) -> bool {
        &&& field_decodes::<String>(json, "added_at"@, value.added_at)
        &&& field_decodes::<Album>(json, "album"@, value.album)
    }

    open spec fn defect(json: JsonValue) -> Option<DecodeError> {
        if field_defect::<String>(json, "added_at"@) is Some {
            field_defect::<String>(json, "added_at"@)
        } else {
            field_defect::<Album>(json, "album"@)
        }
    }

    open spec fn spec_target() -> Seq<char> {
        "SavedAlbum"@
    }

    fn target() -> (r: &'static str) {
        "SavedAlbum"
    }

    fn from_json(json: &Json) -> (r: Result<Self, DecodeError>) {
        let added_at = field::<String>(json, "added_at")?;
        let album = field::<Album>(json, "album")?;
        Ok(SavedAlbum { added_at, album })
    }
}

/// A list of new album releases featured in Spotify (shown, for example, on a Spotify player’s “Browse” tab).
#[derive(Debug, Clone, PartialEq, Eq)]
pub struct NewReleases {
    pub albums: Page<SimplifiedAlbum>,
}

impl FromJson for NewReleases {
    open spec fn decodes(json: JsonValue, value: Self) -> bool {
        &&& field_decodes::<Page<SimplifiedAlbum>>(json, "albums"@, value.albums)
    }

    open spec fn defect(json: JsonValue) -> Option<DecodeError> {
        field_defect::<Page<SimplifiedAlbum>>(json, "albums"@)
    }

    open spec fn spec_target() -> Seq<char> {
        "NewReleases"@
    }

    fn target() -> (r: &'static str) {
        "NewReleases"
    }

    fn from_json(json: &Json) -> (r: Result<Self, DecodeError>) {
        let albums = field::<Page<SimplifiedAlbum>>(json, "albums")?;
        Ok(NewReleases { albums })
    }
}

impl AlbumType {
    /// Every album type, in the order of their declaration.
    pub fn all() -> (r: Vec<Self>)
        ensures
            r@ == seq![
                AlbumType::Album,
                AlbumType::Single,
                AlbumType::Compilation,
                AlbumType::AppearsOn,
            ],
    {
        vec![AlbumType::Album, AlbumType::Single, AlbumType::Compilation, AlbumType::AppearsOn]
    }

    /// The name of the type as the service writes it.
    pub open spec fn spec_snake_case(&self) -> Seq<char> {
        match self {
            AlbumType::Album => "album"@,
            AlbumType::Single => "single"@,
            AlbumType::Compilation => "compilation"@,
            AlbumType::AppearsOn => "appears_on"@,
        }
    }

    /// The name of the type as the service writes it.
    pub fn snake_case(&self) -> (r: &'static str)
        ensures
            r@ == self.spec_snake_case(),
    {
        match self {
            AlbumType::Album => "album",
            AlbumType::Single => "single",
            AlbumType::Compilation => "compilation",
            AlbumType::AppearsOn => "appears_on",
        }
    }
}

impl ParamValue for &AlbumType {
    open spec fn spec_value(&self) -> Seq<char> {
        self.spec_snake_case()
    }

    fn as_value(&self) -> (r: String) {
        String::from_str(self.snake_case())
    }
}

} // verus!
