//! Artists.

use vstd::prelude::*;
use vstd::string::*;
use crate::api::error::DecodeError;
use crate::decode::{field, field_decodes, field_defect, FromJson};
use crate::json::{Json, JsonValue};
use crate::model::misc::Cursors;
use crate::model::misc::ExternalUrls;
use crate::model::misc::Followers;
use crate::model::misc::Image;
use crate::model::misc::ItemType;

verus! {

/// Full artist information from the Spotify catalog.
///
/// Contains complete details about an artist including their images, genres,
/// popularity, and follower count.
#[derive(Debug, Clone, PartialEq, Eq)]
pub struct Artist {
    /// Known external URLs for this artist.
    pub external_urls: ExternalUrls,
    /// Information about the followers of the artist.
    pub followers: Followers,
    /// A list of the genres the artist is associated with. If not yet classified, the array is empty.
    pub genres: Vec<String>,
    /// A link to the Web API endpoint providing full details of the artist.
    pub href: String,
    /// The [Spotify ID](https://developer.spotify.com/documentation/web-api/concepts/spotify-uris-ids) for the artist.
    pub id: String,
    /// Images of the artist in various sizes, widest first.
    pub images: Vec<Image>,
    /// The name of the artist.
    pub name: String,
    /// The popularity of the artist. The value will be between 0 and 100, with 100 being the most popular.
    /// The artist's popularity is calculated from the popularity of all the artist's tracks.
    pub popularity: u8,
    /// The object type.
    ///
    /// Allowed values: "artist"
    pub type_: ItemType,
    /// The [Spotify URI](https://developer.spotify.com/documentation/web-api/concepts/spotify-uris-ids) for the artist.
    pub uri: String,
}

impl FromJson for Artist {
    open spec fn decodes(json: JsonValue, value: Self) -> bool {
        &&& field_decodes::<ExternalUrls>(json, "external_urls"@, value.external_urls)
        &&& field_decodes::<Followers>(json, "followers"@, value.followers)
        &&& field_decodes::<Vec<String>>(json, "genres"@, value.genres)
        &&& field_decodes::<String>(json, "href"@, value.href)
        &&& field_decodes::<String>(json, "id"@, value.id)
        &&& field_decodes::<Vec<Image>>(json, "images"@, value.images)
        &&& field_decodes::<String>(json, "name"@, value.name)
        &&& field_decodes::<u8>(json, "popularity"@, value.popularity)
        &&& field_decodes::<ItemType>(json, "type"@, value.type_)
        &&& field_decodes::<String>(json, "uri"@, value.uri)
    }

    open spec fn defect(json: JsonValue) -> Option<DecodeError> {
        if field_defect::<ExternalUrls>(json, "external_urls"@) is Some {
            field_defect::<ExternalUrls>(json, "external_urls"@)
        } else if field_defect::<Followers>(json, "followers"@) is Some {
            field_defect::<Followers>(json, "followers"@)
        } else if field_defect::<Vec<String>>(json, "genres"@) is Some {
            field_defect::<Vec<String>>(json, "genres"@)
        } else if field_defect::<String>(json, "href"@) is Some {
            field_defect::<String>(json, "href"@)
        } else if field_defect::<String>(json, "id"@) is Some {
            field_defect::<String>(json, "id"@)
        } else if field_defect::<Vec<Image>>(json, "images"@) is Some {
            field_defect::<Vec<Image>>(json, "images"@)
        } else if field_defect::<String>(json, "name"@) is Some {
            field_defect::<String>(json, "name"@)
        } else if field_defect::<u8>(json, "popularity"@) is Some {
            field_defect::<u8>(json, "popularity"@)
        } else if field_defect::<ItemType>(json, "type"@) is Some {
            field_defect::<ItemType>(json, "type"@)
        } else {
            field_defect::<String>(json, "uri"@)
        }
    }

    open spec fn spec_target() -> Seq<char> {
        "Artist"@
    }

    fn target() -> (r: &'static str) {
        "Artist"
    }

    fn from_json(json: &Json) -> (r: Result<Self, DecodeError>) {
        let external_urls = field::<ExternalUrls>(json, "external_urls")?;
        let followers = field::<Followers>(json, "followers")?;
        let genres = field::<Vec<String>>(json, "genres")?;
        let href = field::<String>(json, "href")?;
        let id = field::<String>(json, "id")?;
        let images = field::<Vec<Image>>(json, "images")?;
        let name = field::<String>(json, "name")?;
        let popularity = field::<u8>(json, "popularity")?;
        let type_ = field::<ItemType>(json, "type")?;
        let uri = field::<String>(json, "uri")?;
        Ok(Artist { external_urls, followers, genres, href, id, images, name, popularity, type_, uri })
    }
}

/// Simplified artist information with basic details only.
///
/// A lighter version of [`Artist`] that omits images, genres, popularity,
/// and follower information. Commonly returned when artists are nested within
/// other objects like tracks or albums.
#[derive(Debug, Clone, PartialEq, Eq)]
pub struct SimplifiedArtist {
    /// Known external URLs for this artist.
    pub external_urls: ExternalUrls,
    /// A link to the Web API endpoint providing full details of the artist.
    pub href: String,
    /// The [Spotify ID](https://developer.spotify.com/documentation/web-api/concepts/spotify-uris-ids) for the artist.
    pub id: String,
    /// The name of the artist.
    pub name: String,
    /// The object type.
    ///
    /// Allowed values: "artist"
    pub type_: ItemType,
    /// The [Spotify URI](https://developer.spotify.com/documentation/web-api/concepts/spotify-uris-ids) for the artist.
    pub uri: String,
}

impl FromJson for SimplifiedArtist {
    open spec fn decodes(json: JsonValue, value: Self) -> bool {
        &&& field_decodes::<ExternalUrls>(json, "external_urls"@, value.external_urls)
        &&& field_decodes::<String>(json, "href"@, value.href)
        &&& field_decodes::<String>(json, "id"@, value.id)
        &&& field_decodes::<String>(json, "name"@, value.name)
        &&& field_decodes::<ItemType>(json, "type"@, value.type_)
        &&& field_decodes::<String>(json, "uri"@, value.uri)
    }

    open spec fn defect(json: JsonValue) -> Option<DecodeError> {
        if field_defect::<ExternalUrls>(json, "external_urls"@) is Some {
            field_defect::<ExternalUrls>(json, "external_urls"@)
        } else if field_defect::<String>(json, "href"@) is Some {
            field_defect::<String>(json, "href"@)
        } else if field_defect::<String>(json, "id"@) is Some {
            field_defect::<String>(json, "id"@)
        } else if field_defect::<String>(json, "name"@) is Some {
            field_defect::<String>(json, "name"@)
        } else if field_defect::<ItemType>(json, "type"@) is Some {
            field_defect::<ItemType>(json, "type"@)
        } else {
            field_defect::<String>(json, "uri"@)
        }
    }

    open spec fn spec_target() -> Seq<char> {
        "SimplifiedArtist"@
    }

    fn target() -> (r: &'static str) {
        "SimplifiedArtist"
    }

    fn from_json(json: &Json) -> (r: Result<Self, DecodeError>) {
        let external_urls = field::<ExternalUrls>(json, "external_urls")?;
        let href = field::<String>(json, "href")?;
        let id = field::<String>(json, "id")?;
        let name = field::<String>(json, "name")?;
        let type_ = field::<ItemType>(json, "type")?;
        let uri = field::<String>(json, "uri")?;
        Ok(SimplifiedArtist { external_urls, href, id, name, type_, uri })
    }
}

impl vstd::std_specs::convert::FromSpecImpl<Artist> for SimplifiedArtist {
    open spec fn obeys_from_spec() -> bool {
        true
    }

    open spec fn from_spec(artist: Artist) -> Self {
        SimplifiedArtist {
            external_urls: artist.external_urls,
            href: artist.href,
            id: artist.id,
            name: artist.name,
            type_: artist.type_,
            uri: artist.uri,
        }
    }
}

impl From<Artist> for SimplifiedArtist {
    fn from(artist: Artist) -> (r: Self) {
        SimplifiedArtist {
            external_urls: artist.external_urls,
            href: artist.href,
            id: artist.id,
            name: artist.name,
            type_: artist.type_,
            uri: artist.uri,
        }
    }
}

/// Spotify catalog information for several artists
#[derive(Debug, Clone, PartialEq, Eq)]
pub struct Artists {
    pub artists: Vec<Option<Artist>>,
}

impl FromJson for Artists {
    open spec fn decodes(json: JsonValue, value: Self) -> bool {
        &&& field_decodes::<Vec<Option<Artist>>>(json, "artists"@, value.artists)
    }

    open spec fn defect(json: JsonValue) -> Option<DecodeError> {
        field_defect::<Vec<Option<Artist>>>(json, "artists"@)
    }

    open spec fn spec_target() -> Seq<char> {
        "Artists"@
    }

    fn target() -> (r: &'static str) {
        "Artists"
    }

    fn from_json(json: &Json) -> (r: Result<Self, DecodeError>) {
        let artists = field::<Vec<Option<Artist>>>(json, "artists")?;
        Ok(Artists { artists })
    }
}

/// A cursor-based page of followed artists.
///
/// Used for paginating through the artists that the current user follows.
/// Unlike standard pagination, this uses cursors for navigation.
#[derive(Debug, Clone, PartialEq, Eq)]
pub struct FollowedArtist {
    /// A link to the Web API endpoint returning the full result of the request.
    pub href: String,
    /// The maximum number of items in the response (as set in the query or by default).
    pub limit: usize,
    /// URL to the next page of items.
    pub next: Option<String>,
    /// The cursors used to find the next set of items.
    pub cursors: Cursors,
    /// The total number of items available to return.
    pub total: usize,
    pub items: Vec<Artist>,
}

impl FromJson for FollowedArtist {
    open spec fn decodes(json: JsonValue, value: Self) -> bool {
        &&& field_decodes::<String>(json, "href"@, value.href)
        &&& field_decodes::<usize>(json, "limit"@, value.limit)
        &&& field_decodes::<Option<String>>(json, "next"@, value.next)
        &&& field_decodes::<Cursors>(json, "cursors"@, value.cursors)
        &&& field_decodes::<usize>(json, "total"@, value.total)
        &&& field_decodes::<Vec<Artist>>(json, "items"@, value.items)
    }

    open spec fn defect(json: JsonValue) -> Option<DecodeError> {
        if field_defect::<String>(json, "href"@) is Some {
            field_defect::<String>(json, "href"@)
        } else if field_defect::<usize>(json, "limit"@) is Some {
            field_defect::<usize>(json, "limit"@)
        } else if field_defect::<Option<String>>(json, "next"@) is Some {
            field_defect::<Option<String>>(json, "next"@)
        } else if field_defect::<Cursors>(json, "cursors"@) is Some {
            field_defect::<Cursors>(json, "cursors"@)
        } else if field_defect::<usize>(json, "total"@) is Some {
            field_defect::<usize>(json, "total"@)
        } else {
            field_defect::<Vec<Artist>>(json, "items"@)
        }
    }

    open spec fn spec_target() -> Seq<char> {
        "FollowedArtist"@
    }

    fn target() -> (r: &'static str) {
        "FollowedArtist"
    }

    fn from_json(json: &Json) -> (r: Result<Self, DecodeError>) {
        let href = field::<String>(json, "href")?;
        let limit = field::<usize>(json, "limit")?;
        let next = field::<Option<String>>(json, "next")?;
        let cursors = field::<Cursors>(json, "cursors")?;
        let total = field::<usize>(json, "total")?;
        let items = field::<Vec<Artist>>(json, "items")?;
        Ok(FollowedArtist { href, limit, next, cursors, total, items })
    }
}

/// Wrapper for the followed artists response.
///
/// Contains a [`FollowedArtist`] object with the paginated list of artists
/// the current user follows.
#[derive(Debug, Clone, PartialEq, Eq)]
pub struct FollowedArtists {
    pub artists: FollowedArtist,
}

impl FromJson for FollowedArtists {
    open spec fn decodes(json: JsonValue, value: Self) -> bool {
        &&& field_decodes::<FollowedArtist>(json, "artists"@, value.artists)
    }

    open spec fn defect(json: JsonValue) -> Option<DecodeError> {
        field_defect::<FollowedArtist>(json, "artists"@)
    }

    open spec fn spec_target() -> Seq<char> {
        "FollowedArtists"@
    }

    fn target() -> (r: &'static str) {
        "FollowedArtists"
    }

    fn from_json(json: &Json) -> (r: Result<Self, DecodeError>) {
        let artists = field::<FollowedArtist>(json, "artists")?;
        Ok(FollowedArtists { artists })
    }
}

} // verus!
