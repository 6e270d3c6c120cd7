//! Types shared by several resources.

use vstd::prelude::*;
use vstd::string::*;
use crate::api::error::DecodeError;
use crate::decode::{field, field_decodes, field_defect, FromJson};
use crate::json::{lemma_json_view, Json, JsonValue};
use crate::text::str_eq;
use crate::model::albums::Album;
use crate::model::artists::Artist;
use crate::model::artists::Artists;
use crate::model::audiobooks::Audiobook;
use crate::model::chapters::Chapter;
use crate::model::episodes::Episode;
use crate::model::playlists::Playlist;
use crate::model::shows::Show;
use crate::model::tracks::Track;
use crate::model::tracks::Tracks;
use crate::api::params::ParamValue;

verus! {

/// The type of a Spotify item.
#[derive(Debug, Clone, Copy, PartialEq, Eq, Structural)]
pub enum ItemType {
    User,
    Album,
    Artist,
    Playlist,
    Track,
    Show,
    Episode,
    Audiobook,
    Unknown,
    Chapter,
    Collection,
}

impl ItemType {
    /// The value that the service writes as `text`.
    pub open spec fn named(text: Seq<char>) -> Option<Self> {
        if text == "user"@ {
            Some(ItemType::User)
        }         else if text == "album"@ {
            Some(ItemType::Album)
        }         else if text == "artist"@ {
            Some(ItemType::Artist)
        }         else if text == "playlist"@ {
            Some(ItemType::Playlist)
        }         else if text == "track"@ {
            Some(ItemType::Track)
        }         else if text == "show"@ {
            Some(ItemType::Show)
        }         else if text == "episode"@ {
            Some(ItemType::Episode)
        }         else if text == "audiobook"@ {
            Some(ItemType::Audiobook)
        }         else if text == "unknown"@ {
            Some(ItemType::Unknown)
        }         else if text == "chapter"@ {
            Some(ItemType::Chapter)
        }         else if text == "collection"@ {
            Some(ItemType::Collection)
        } else {
            None
        }
    }

    /// The value that the service writes as `text`.
    pub fn from_name(text: &str) -> (r: Option<Self>)
        ensures
            r == Self::named(text@),
    {
        if str_eq(text, "user") {
            Some(ItemType::User)
        }         else if str_eq(text, "album") {
            Some(ItemType::Album)
        }         else if str_eq(text, "artist") {
            Some(ItemType::Artist)
        }         else if str_eq(text, "playlist") {
            Some(ItemType::Playlist)
        }         else if str_eq(text, "track") {
            Some(ItemType::Track)
        }         else if str_eq(text, "show") {
            Some(ItemType::Show)
        }         else if str_eq(text, "episode") {
            Some(ItemType::Episode)
        }         else if str_eq(text, "audiobook") {
            Some(ItemType::Audiobook)
        }         else if str_eq(text, "unknown") {
            Some(ItemType::Unknown)
        }         else if str_eq(text, "chapter") {
            Some(ItemType::Chapter)
        }         else if str_eq(text, "collection") {
            Some(ItemType::Collection)
        } else {
            None
        }
    }
}

impl FromJson for ItemType {
    open spec fn decodes(json: JsonValue, value: Self) -> bool {
        json matches JsonValue::Str(text) && Self::named(text) == Some(value)
    }

    open spec fn defect(json: JsonValue) -> Option<DecodeError> {
        match json {
            JsonValue::Str(text) => if Self::named(text) is Some {
                None
            } else {
                Some(DecodeError::UnknownVariant)
            },
            _ => Some(DecodeError::ExpectedString),
        }
    }

    open spec fn spec_target() -> Seq<char> {
        "ItemType"@
    }

    fn target() -> (r: &'static str) {
        "ItemType"
    }

    fn from_json(json: &Json) -> (r: Result<Self, DecodeError>) {
        proof {
            lemma_json_view(*json);
        }
        match json {
            Json::Str(text) => match Self::from_name(text.as_str()) {
                Some(value) => Ok(value),
                None => Err(DecodeError::UnknownVariant),
            },
            _ => Err(DecodeError::ExpectedString),
        }
    }
}

impl ItemType {
    /// The text that this value is displayed as.
    pub open spec fn spec_text(&self) -> Seq<char> {
        match self {
            ItemType::User => "user"@,
            ItemType::Album => "album"@,
            ItemType::Artist => "artist"@,
            ItemType::Playlist => "playlist"@,
            ItemType::Track => "track"@,
            ItemType::Show => "show"@,
            ItemType::Episode => "episode"@,
            ItemType::Audiobook => "audiobook"@,
            ItemType::Unknown => "unknown"@,
            ItemType::Chapter => "chapter"@,
            ItemType::Collection => "collection"@,
        }
    }

    /// The text that this value is displayed as.
    pub fn as_str(&self) -> (r: &'static str)
        ensures
            r@ == self.spec_text(),
    {
        match self {
            ItemType::User => "user",
            ItemType::Album => "album",
            ItemType::Artist => "artist",
            ItemType::Playlist => "playlist",
            ItemType::Track => "track",
            ItemType::Show => "show",
            ItemType::Episode => "episode",
            ItemType::Audiobook => "audiobook",
            ItemType::Unknown => "unknown",
            ItemType::Chapter => "chapter",
            ItemType::Collection => "collection",
        }
    }

    /// The text that this value is displayed as.
    pub fn to_string(&self) -> (r: String)
        ensures
            r@ == self.spec_text(),
    {
        String::from_str(self.as_str())
    }
}

/// An image from Spotify (album art, user avatar, etc.).
#[derive(Debug, Clone, PartialEq, Eq)]
pub struct Image {
    /// The source URL of the image.
    pub url: String,
    /// The image height in pixels.
    pub height: Option<u16>,
    /// The image width in pixels.
    pub width: Option<u16>,
}

impl FromJson for Image {
    open spec fn decodes(json: JsonValue, value: Self) -> bool {
        &&& field_decodes::<String>(json, "url"@, value.url)
        &&& field_decodes::<Option<u16>>(json, "height"@, value.height)
        &&& field_decodes::<Option<u16>>(json, "width"@, value.width)
    }

    open spec fn defect(json: JsonValue) -> Option<DecodeError> {
        if field_defect::<String>(json, "url"@) is Some {
            field_defect::<String>(json, "url"@)
        } else if field_defect::<Option<u16>>(json, "height"@) is Some {
            field_defect::<Option<u16>>(json, "height"@)
        } else {
            field_defect::<Option<u16>>(json, "width"@)
        }
    }

    open spec fn spec_target() -> Seq<char> {
        "Image"@
    }

    fn target() -> (r: &'static str) {
        "Image"
    }

    fn from_json(json: &Json) -> (r: Result<Self, DecodeError>) {
        let url = field::<String>(json, "url")?;
        let height = field::<Option<u16>>(json, "height")?;
        let width = field::<Option<u16>>(json, "width")?;
        Ok(Image { url, height, width })
    }
}

/// An icon image.
#[derive(Debug, Clone, PartialEq, Eq)]
pub struct Icon {
    /// The source URL of the image.
    pub url: String,
    /// The image height in pixels.
    pub height: Option<u16>,
    /// The image width in pixels.
    pub width: Option<u16>,
}

impl FromJson for Icon {
    open spec fn decodes(json: JsonValue, value: Self) -> bool {
        &&& field_decodes::<String>(json, "url"@, value.url)
        &&& field_decodes::<Option<u16>>(json, "height"@, value.height)
        &&& field_decodes::<Option<u16>>(json, "width"@, value.width)
    }

    open spec fn defect(json: JsonValue) -> Option<DecodeError> {
        if field_defect::<String>(json, "url"@) is Some {
            field_defect::<String>(json, "url"@)
        } else if field_defect::<Option<u16>>(json, "height"@) is Some {
            field_defect::<Option<u16>>(json, "height"@)
        } else {
            field_defect::<Option<u16>>(json, "width"@)
        }
    }

    open spec fn spec_target() -> Seq<char> {
        "Icon"@
    }

    fn target() -> (r: &'static str) {
        "Icon"
    }

    fn from_json(json: &Json) -> (r: Result<Self, DecodeError>) {
        let url = field::<String>(json, "url")?;
        let height = field::<Option<u16>>(json, "height")?;
        let width = field::<Option<u16>>(json, "width")?;
        Ok(Icon { url, height, width })
    }
}

/// A video thumbnail image.
#[derive(Debug, Clone, PartialEq, Eq)]
pub struct VideoThumbnail {
    /// The source URL of the image.
    pub url: Option<String>,
}

impl FromJson for VideoThumbnail {
    open spec fn decodes(json: JsonValue, value: Self) -> bool {
        &&& field_decodes::<Option<String>>(json, "url"@, value.url)
    }

    open spec fn defect(json: JsonValue) -> Option<DecodeError> {
        field_defect::<Option<String>>(json, "url"@)
    }

    open spec fn spec_target() -> Seq<char> {
        "VideoThumbnail"@
    }

    fn target() -> (r: &'static str) {
        "VideoThumbnail"
    }

    fn from_json(json: &Json) -> (r: Result<Self, DecodeError>) {
        let url = field::<Option<String>>(json, "url")?;
        Ok(VideoThumbnail { url })
    }
}

/// External URLs for a Spotify object.
#[derive(Debug, Clone, PartialEq, Eq)]
pub struct ExternalUrls {
    /// The [Spotify URL](https://developer.spotify.com/documentation/web-api/concepts/spotify-uris-ids) for the object.
    pub spotify: String,
}

impl FromJson for ExternalUrls {
    open spec fn decodes(json: JsonValue, value: Self) -> bool {
        &&& field_decodes::<String>(json, "spotify"@, value.spotify)
    }

    open spec fn defect(json: JsonValue) -> Option<DecodeError> {
        field_defect::<String>(json, "spotify"@)
    }

    open spec fn spec_target() -> Seq<char> {
        "ExternalUrls"@
    }

    fn target() -> (r: &'static str) {
        "ExternalUrls"
    }

    fn from_json(json: &Json) -> (r: Result<Self, DecodeError>) {
        let spotify = field::<String>(json, "spotify")?;
        Ok(ExternalUrls { spotify })
    }
}

/// External IDs for a track (ISRC, EAN, UPC).
#[derive(Debug, Clone, PartialEq, Eq)]
pub struct ExternalIds {
    /// [International Standard Recording Code](http://en.wikipedia.org/wiki/International_Standard_Recording_Code)
    pub isrc: Option<String>,
    /// [International Article Number](http://en.wikipedia.org/wiki/International_Article_Number_%28EAN%29)
    pub ean: Option<String>,
    /// [Universal Product Code](http://en.wikipedia.org/wiki/Universal_Product_Code)
    pub upc: Option<String>,
}

impl FromJson for ExternalIds {
    open spec fn decodes(json: JsonValue, value: Self) -> bool {
        &&& field_decodes::<Option<String>>(json, "isrc"@, value.isrc)
        &&& field_decodes::<Option<String>>(json, "ean"@, value.ean)
        &&& field_decodes::<Option<String>>(json, "upc"@, value.upc)
    }

    open spec fn defect(json: JsonValue) -> Option<DecodeError> {
        if field_defect::<Option<String>>(json, "isrc"@) is Some {
            field_defect::<Option<String>>(json, "isrc"@)
        } else if field_defect::<Option<String>>(json, "ean"@) is Some {
            field_defect::<Option<String>>(json, "ean"@)
        } else {
            field_defect::<Option<String>>(json, "upc"@)
        }
    }

    open spec fn spec_target() -> Seq<char> {
        "ExternalIds"@
    }

    fn target() -> (r: &'static str) {
        "ExternalIds"
    }

    fn from_json(json: &Json) -> (r: Result<Self, DecodeError>) {
        let isrc = field::<Option<String>>(json, "isrc")?;
        let ean = field::<Option<String>>(json, "ean")?;
        let upc = field::<Option<String>>(json, "upc")?;
        Ok(ExternalIds { isrc, ean, upc })
    }
}

/// Follower information for a user, artist, or playlist.
#[derive(Debug, Clone, PartialEq, Eq)]
pub struct Followers {
    /// This will always be set to null, as the Web API does not support it at the moment.
    pub href: Option<String>,
    /// The total number of followers.
    pub total: usize,
}

impl FromJson for Followers {
    open spec fn decodes(json: JsonValue, value: Self) -> bool {
        &&& field_decodes::<Option<String>>(json, "href"@, value.href)
        &&& field_decodes::<usize>(json, "total"@, value.total)
    }

    open spec fn defect(json: JsonValue) -> Option<DecodeError> {
        if field_defect::<Option<String>>(json, "href"@) is Some {
            field_defect::<Option<String>>(json, "href"@)
        } else {
            field_defect::<usize>(json, "total"@)
        }
    }

    open spec fn spec_target() -> Seq<char> {
        "Followers"@
    }

    fn target() -> (r: &'static str) {
        "Followers"
    }

    fn from_json(json: &Json) -> (r: Result<Self, DecodeError>) {
        let href = field::<Option<String>>(json, "href")?;
        let total = field::<usize>(json, "total")?;
        Ok(Followers { href, total })
    }
}

/// The precision of a release date.
#[derive(Debug, Clone, Copy, PartialEq, Eq, Structural)]
pub enum ReleaseDatePrecision {
    Year,
    Month,
    Day,
}

impl ReleaseDatePrecision {
    /// The value that the service writes as `text`.
    pub open spec fn named(text: Seq<char>) -> Option<Self> {
        if text == "year"@ {
            Some(ReleaseDatePrecision::Year)
        }         else if text == "month"@ {
            Some(ReleaseDatePrecision::Month)
        }         else if text == "day"@ {
            Some(ReleaseDatePrecision::Day)
        } else {
            None
        }
    }

    /// The value that the service writes as `text`.
    pub fn from_name(text: &str) -> (r: Option<Self>)
        ensures
            r == Self::named(text@),
    {
        if str_eq(text, "year") {
            Some(ReleaseDatePrecision::Year)
        }         else if str_eq(text, "month") {
            Some(ReleaseDatePrecision::Month)
        }         else if str_eq(text, "day") {
            Some(ReleaseDatePrecision::Day)
        } else {
            None
        }
    }
}

impl FromJson for ReleaseDatePrecision {
    open spec fn decodes(json: JsonValue, value: Self) -> bool {
        json matches JsonValue::Str(text) && Self::named(text) == Some(value)
    }

    open spec fn defect(json: JsonValue) -> Option<DecodeError> {
        match json {
            JsonValue::Str(text) => if Self::named(text) is Some {
                None
            } else {
                Some(DecodeError::UnknownVariant)
            },
            _ => Some(DecodeError::ExpectedString),
        }
    }

    open spec fn spec_target() -> Seq<char> {
        "ReleaseDatePrecision"@
    }

    fn target() -> (r: &'static str) {
        "ReleaseDatePrecision"
    }

    fn from_json(json: &Json) -> (r: Result<Self, DecodeError>) {
        proof {
            lemma_json_view(*json);
        }
        match json {
            Json::Str(text) => match Self::from_name(text.as_str()) {
                Some(value) => Ok(value),
                None => Err(DecodeError::UnknownVariant),
            },
            _ => Err(DecodeError::ExpectedString),
        }
    }
}

/// Content restrictions applied to an item.
#[derive(Debug, Clone, PartialEq, Eq)]
pub struct Restrictions {
    /// The reason for the restriction.
    pub reason: String,
}

impl FromJson for Restrictions {
    open spec fn decodes(json: JsonValue, value: Self) -> bool {
        &&& field_decodes::<String>(json, "reason"@, value.reason)
    }

    open spec fn defect(json: JsonValue) -> Option<DecodeError> {
        field_defect::<String>(json, "reason"@)
    }

    open spec fn spec_target() -> Seq<char> {
        "Restrictions"@
    }

    fn target() -> (r: &'static str) {
        "Restrictions"
    }

    fn from_json(json: &Json) -> (r: Result<Self, DecodeError>) {
        let reason = field::<String>(json, "reason")?;
        Ok(Restrictions { reason })
    }
}

/// The type of copyright.
#[derive(Debug, Clone, Copy, PartialEq, Eq, Structural)]
pub enum CopyrightType {
    /// The copyright.
    C,
    /// The sound recording (performance) copyright.
    P,
}

impl CopyrightType {
    /// The value that the service writes as `text`.
    pub open spec fn named(text: Seq<char>) -> Option<Self> {
        if text == "C"@ {
            Some(CopyrightType::C)
        }         else if text == "P"@ {
            Some(CopyrightType::P)
        } else {
            None
        }
    }

    /// The value that the service writes as `text`.
    pub fn from_name(text: &str) -> (r: Option<Self>)
        ensures
            r == Self::named(text@),
    {
        if str_eq(text, "C") {
            Some(CopyrightType::C)
        }         else if str_eq(text, "P") {
            Some(CopyrightType::P)
        } else {
            None
        }
    }
}

impl FromJson for CopyrightType {
    open spec fn decodes(json: JsonValue, value: Self) -> bool {
        json matches JsonValue::Str(text) && Self::named(text) == Some(value)
    }

    open spec fn defect(json: JsonValue) -> Option<DecodeError> {
        match json {
            JsonValue::Str(text) => if Self::named(text) is Some {
                None
            } else {
                Some(DecodeError::UnknownVariant)
            },
            _ => Some(DecodeError::ExpectedString),
        }
    }

    open spec fn spec_target() -> Seq<char> {
        "CopyrightType"@
    }

    fn target() -> (r: &'static str) {
        "CopyrightType"
    }

    fn from_json(json: &Json) -> (r: Result<Self, DecodeError>) {
        proof {
            lemma_json_view(*json);
        }
        match json {
            Json::Str(text) => match Self::from_name(text.as_str()) {
                Some(value) => Ok(value),
                None => Err(DecodeError::UnknownVariant),
            },
            _ => Err(DecodeError::ExpectedString),
        }
    }
}

/// Copyright information for an album or show.
#[derive(Debug, Clone, PartialEq, Eq)]
pub struct Copyright {
    /// The copyright text for this content.
    pub text: String,
    /// The type of copyright: C = the copyright, P = the sound recording (performance) copyright.
    pub type_: CopyrightType,
}

impl FromJson for Copyright {
    open spec fn decodes(json: JsonValue, value: Self) -> bool {
        &&& field_decodes::<String>(json, "text"@, value.text)
        &&& field_decodes::<CopyrightType>(json, "type"@, value.type_)
    }

    open spec fn defect(json: JsonValue) -> Option<DecodeError> {
        if field_defect::<String>(json, "text"@) is Some {
            field_defect::<String>(json, "text"@)
        } else {
            field_defect::<CopyrightType>(json, "type"@)
        }
    }

    open spec fn spec_target() -> Seq<char> {
        "Copyright"@
    }

    fn target() -> (r: &'static str) {
        "Copyright"
    }

    fn from_json(json: &Json) -> (r: Result<Self, DecodeError>) {
        let text = field::<String>(json, "text")?;
        let type_ = field::<CopyrightType>(json, "type")?;
        Ok(Copyright { text, type_ })
    }
}

/// A paginated response containing a list of items.
///
/// Use the `next` and `previous` URLs or the pagination helper functions
/// to navigate through results.
#[derive(Debug, Clone, PartialEq, Eq)]
pub struct Page<T> {
    /// A link to the Web API endpoint returning the full result of the request.
    pub href: String,
    /// The maximum number of items in the response (as set in the query or by default).
    pub limit: usize,
    /// URL to the next page of items
    pub next: Option<String>,
    /// The offset of the items returned (as set in the query or by default).
    pub offset: usize,
    /// URL to the previous page of items.
    pub previous: Option<String>,
    /// The total number of items available to return.
    pub total: usize,
    pub items: Vec<T>,
}

impl<T: FromJson> FromJson for Page<T> {
    open spec fn decodes(json: JsonValue, value: Self) -> bool {
        &&& field_decodes::<String>(json, "href"@, value.href)
        &&& field_decodes::<usize>(json, "limit"@, value.limit)
        &&& field_decodes::<Option<String>>(json, "next"@, value.next)
        &&& field_decodes::<usize>(json, "offset"@, value.offset)
        &&& field_decodes::<Option<String>>(json, "previous"@, value.previous)
        &&& field_decodes::<usize>(json, "total"@, value.total)
        &&& field_decodes::<Vec<T>>(json, "items"@, value.items)
    }

    open spec fn defect(json: JsonValue) -> Option<DecodeError> {
        if field_defect::<String>(json, "href"@) is Some {
            field_defect::<String>(json, "href"@)
        } else if field_defect::<usize>(json, "limit"@) is Some {
            field_defect::<usize>(json, "limit"@)
        } else if field_defect::<Option<String>>(json, "next"@) is Some {
            field_defect::<Option<String>>(json, "next"@)
        } else if field_defect::<usize>(json, "offset"@) is Some {
            field_defect::<usize>(json, "offset"@)
        } else if field_defect::<Option<String>>(json, "previous"@) is Some {
            field_defect::<Option<String>>(json, "previous"@)
        } else if field_defect::<usize>(json, "total"@) is Some {
            field_defect::<usize>(json, "total"@)
        } else {
            field_defect::<Vec<T>>(json, "items"@)
        }
    }

    open spec fn spec_target() -> Seq<char> {
        "Page"@
    }

    fn target() -> (r: &'static str) {
        "Page"
    }

    fn from_json(json: &Json) -> (r: Result<Self, DecodeError>) {
        let href = field::<String>(json, "href")?;
        let limit = field::<usize>(json, "limit")?;
        let next = field::<Option<String>>(json, "next")?;
        let offset = field::<usize>(json, "offset")?;
        let previous = field::<Option<String>>(json, "previous")?;
        let total = field::<usize>(json, "total")?;
        let items = field::<Vec<T>>(json, "items")?;
        Ok(Page { href, limit, next, offset, previous, total, items })
    }
}

/// Cursors for cursor-based pagination.
#[derive(Debug, Clone, PartialEq, Eq)]
pub struct Cursors {
    /// The cursor to use as key to find the next page of items.
    pub after: Option<String>,
    /// The cursor to use as key to find the previous page of items.
    pub before: Option<String>,
}

impl FromJson for Cursors {
    open spec fn decodes(json: JsonValue, value: Self) -> bool {
        &&& field_decodes::<Option<String>>(json, "after"@, value.after)
        &&& field_decodes::<Option<String>>(json, "before"@, value.before)
    }

    open spec fn defect(json: JsonValue) -> Option<DecodeError> {
        if field_defect::<Option<String>>(json, "after"@) is Some {
            field_defect::<Option<String>>(json, "after"@)
        } else {
            field_defect::<Option<String>>(json, "before"@)
        }
    }

    open spec fn spec_target() -> Seq<char> {
        "Cursors"@
    }

    fn target() -> (r: &'static str) {
        "Cursors"
    }

    fn from_json(json: &Json) -> (r: Result<Self, DecodeError>) {
        let after = field::<Option<String>>(json, "after")?;
        let before = field::<Option<String>>(json, "before")?;
        Ok(Cursors { after, before })
    }
}

/// Resume point for a podcast episode.
#[derive(Debug, Clone, PartialEq, Eq)]
pub struct ResumePoint {
    /// Whether or not the episode has been fully played by the user.
    pub fully_played: bool,
    /// The user's most recent position in the episode in milliseconds.
    pub resume_position_ms: u32,
}

impl FromJson for ResumePoint {
    open spec fn decodes(json: JsonValue, value: Self) -> bool {
        &&& field_decodes::<bool>(json, "fully_played"@, value.fully_played)
        &&& field_decodes::<u32>(json, "resume_position_ms"@, value.resume_position_ms)
    }

    open spec fn defect(json: JsonValue) -> Option<DecodeError> {
        if field_defect::<bool>(json, "fully_played"@) is Some {
            field_defect::<bool>(json, "fully_played"@)
        } else {
            field_defect::<u32>(json, "resume_position_ms"@)
        }
    }

    open spec fn spec_target() -> Seq<char> {
        "ResumePoint"@
    }

    fn target() -> (r: &'static str) {
        "ResumePoint"
    }

    fn from_json(json: &Json) -> (r: Result<Self, DecodeError>) {
        let fully_played = field::<bool>(json, "fully_played")?;
        let resume_position_ms = field::<u32>(json, "resume_position_ms")?;
        Ok(ResumePoint { fully_played, resume_position_ms })
    }
}

/// A currently playing item, which can be either a track or an episode.
#[derive(Debug, Clone, PartialEq, Eq)]
#[allow(clippy::large_enum_variant)]
pub enum TrackItem {
    Track(super::Track),
    Episode(super::Episode),
}

impl FromJson for TrackItem {
    open spec fn decodes(json: JsonValue, value: Self) -> bool {
        match value {
            TrackItem::Track(inner) => Track::decodes(json, inner),
            TrackItem::Episode(inner) => Track::defect(json) is Some && Episode::decodes(json, inner),
        }
    }

    open spec fn defect(json: JsonValue) -> Option<DecodeError> {
        if Track::defect(json) is None {
            None
        }         else if Episode::defect(json) is None {
            None
        } else {
            Some(DecodeError::UnknownVariant)
        }
    }

    open spec fn spec_target() -> Seq<char> {
        "TrackItem"@
    }

    fn target() -> (r: &'static str) {
        "TrackItem"
    }

    fn from_json(json: &Json) -> (r: Result<Self, DecodeError>) {
        if let Ok(inner) = Track::from_json(json) {
            return Ok(TrackItem::Track(inner));
        }
        if let Ok(inner) = Episode::from_json(json) {
            return Ok(TrackItem::Episode(inner));
        }
        Err(DecodeError::UnknownVariant)
    }
}

/// Time range for fetching user's top items.
#[derive(Debug, Clone, Copy, PartialEq, Eq, Structural)]
pub enum TimeRange {
    /// Calculated from ~1 year of data and including all new data as it becomes available.
    LongTerm,
    /// Approximately last 6 months.
    MediumTerm,
    /// Approximately last 4 weeks
    ShortTerm,
}

impl Default for TimeRange {
    fn default() -> (r: Self)
        ensures
            r == TimeRange::MediumTerm,
    {
        TimeRange::MediumTerm
    }
}

impl TimeRange {
    /// The value that the service writes as `text`.
    pub open spec fn named(text: Seq<char>) -> Option<Self> {
        if text == "long_term"@ {
            Some(TimeRange::LongTerm)
        }         else if text == "medium_term"@ {
            Some(TimeRange::MediumTerm)
        }         else if text == "short_term"@ {
            Some(TimeRange::ShortTerm)
        } else {
            None
        }
    }

    /// The value that the service writes as `text`.
    pub fn from_name(text: &str) -> (r: Option<Self>)
        ensures
            r == Self::named(text@),
    {
        if str_eq(text, "long_term") {
            Some(TimeRange::LongTerm)
        }         else if str_eq(text, "medium_term") {
            Some(TimeRange::MediumTerm)
        }         else if str_eq(text, "short_term") {
            Some(TimeRange::ShortTerm)
        } else {
            None
        }
    }
}

impl FromJson for TimeRange {
    open spec fn decodes(json: JsonValue, value: Self) -> bool {
        json matches JsonValue::Str(text) && Self::named(text) == Some(value)
    }

    open spec fn defect(json: JsonValue) -> Option<DecodeError> {
        match json {
            JsonValue::Str(text) => if Self::named(text) is Some {
                None
            } else {
                Some(DecodeError::UnknownVariant)
            },
            _ => Some(DecodeError::ExpectedString),
        }
    }

    open spec fn spec_target() -> Seq<char> {
        "TimeRange"@
    }

    fn target() -> (r: &'static str) {
        "TimeRange"
    }

    fn from_json(json: &Json) -> (r: Result<Self, DecodeError>) {
        proof {
            lemma_json_view(*json);
        }
        match json {
            Json::Str(text) => match Self::from_name(text.as_str()) {
                Some(value) => Ok(value),
                None => Err(DecodeError::UnknownVariant),
            },
            _ => Err(DecodeError::ExpectedString),
        }
    }
}

impl TimeRange {
    /// The text that this value is displayed as.
    pub open spec fn spec_text(&self) -> Seq<char> {
        match self {
            TimeRange::LongTerm => "long_term"@,
            TimeRange::MediumTerm => "medium_term"@,
            TimeRange::ShortTerm => "short_term"@,
        }
    }

    /// The text that this value is displayed as.
    pub fn as_str(&self) -> (r: &'static str)
        ensures
            r@ == self.spec_text(),
    {
        match self {
            TimeRange::LongTerm => "long_term",
            TimeRange::MediumTerm => "medium_term",
            TimeRange::ShortTerm => "short_term",
        }
    }

    /// The text that this value is displayed as.
    pub fn to_string(&self) -> (r: String)
        ensures
            r@ == self.spec_text(),
    {
        String::from_str(self.as_str())
    }
}

/// The type of top items to fetch (artists or tracks).
#[derive(Debug, Clone, Copy, PartialEq, Eq, Structural)]
pub enum TopItemType {
    Artists,
    Tracks,
}

impl TopItemType {
    /// The value that the service writes as `text`.
    pub open spec fn named(text: Seq<char>) -> Option<Self> {
        if text == "artists"@ {
            Some(TopItemType::Artists)
        }         else if text == "tracks"@ {
            Some(TopItemType::Tracks)
        } else {
            None
        }
    }

    /// The value that the service writes as `text`.
    pub fn from_name(text: &str) -> (r: Option<Self>)
        ensures
            r == Self::named(text@),
    {
        if str_eq(text, "artists") {
            Some(TopItemType::Artists)
        }         else if str_eq(text, "tracks") {
            Some(TopItemType::Tracks)
        } else {
            None
        }
    }
}

impl FromJson for TopItemType {
    open spec fn decodes(json: JsonValue, value: Self) -> bool {
        json matches JsonValue::Str(text) && Self::named(text) == Some(value)
    }

    open spec fn defect(json: JsonValue) -> Option<DecodeError> {
        match json {
            JsonValue::Str(text) => if Self::named(text) is Some {
                None
            } else {
                Some(DecodeError::UnknownVariant)
            },
            _ => Some(DecodeError::ExpectedString),
        }
    }

    open spec fn spec_target() -> Seq<char> {
        "TopItemType"@
    }

    fn target() -> (r: &'static str) {
        "TopItemType"
    }

    fn from_json(json: &Json) -> (r: Result<Self, DecodeError>) {
        proof {
            lemma_json_view(*json);
        }
        match json {
            Json::Str(text) => match Self::from_name(text.as_str()) {
                Some(value) => Ok(value),
                None => Err(DecodeError::UnknownVariant),
            },
            _ => Err(DecodeError::ExpectedString),
        }
    }
}

impl TopItemType {
    /// The text that this value is displayed as.
    pub open spec fn spec_text(&self) -> Seq<char> {
        match self {
            TopItemType::Artists => "artists"@,
            TopItemType::Tracks => "tracks"@,
        }
    }

    /// The text that this value is displayed as.
    pub fn as_str(&self) -> (r: &'static str)
        ensures
            r@ == self.spec_text(),
    {
        match self {
            TopItemType::Artists => "artists",
            TopItemType::Tracks => "tracks",
        }
    }

    /// The text that this value is displayed as.
    pub fn to_string(&self) -> (r: String)
        ensures
            r@ == self.spec_text(),
    {
        String::from_str(self.as_str())
    }
}

/// A user's top item, which can be either an artist or a track.
#[derive(Debug, Clone, PartialEq, Eq)]
#[allow(clippy::large_enum_variant)]
pub enum TopItem {
    Artist(super::Artist),
    Track(super::Track),
}

impl FromJson for TopItem {
    open spec fn decodes(json: JsonValue, value: Self) -> bool {
        match value {
            TopItem::Artist(inner) => Artist::decodes(json, inner),
            TopItem::Track(inner) => Artist::defect(json) is Some && Track::decodes(json, inner),
        }
    }

    open spec fn defect(json: JsonValue) -> Option<DecodeError> {
        if Artist::defect(json) is None {
            None
        }         else if Track::defect(json) is None {
            None
        } else {
            Some(DecodeError::UnknownVariant)
        }
    }

    open spec fn spec_target() -> Seq<char> {
        "TopItem"@
    }

    fn target() -> (r: &'static str) {
        "TopItem"
    }

    fn from_json(json: &Json) -> (r: Result<Self, DecodeError>) {
        if let Ok(inner) = Artist::from_json(json) {
            return Ok(TopItem::Artist(inner));
        }
        if let Ok(inner) = Track::from_json(json) {
            return Ok(TopItem::Track(inner));
        }
        Err(DecodeError::UnknownVariant)
    }
}

/// The type filter for fetching followed artists.
#[derive(Debug, Clone, Copy, PartialEq, Eq, Structural)]
pub enum FollowedArtistsType {
    Artist,
}

impl FollowedArtistsType {
    /// The value that the service writes as `text`.
    pub open spec fn named(text: Seq<char>) -> Option<Self> {
        if text == "artist"@ {
            Some(FollowedArtistsType::Artist)
        } else {
            None
        }
    }

    /// The value that the service writes as `text`.
    pub fn from_name(text: &str) -> (r: Option<Self>)
        ensures
            r == Self::named(text@),
    {
        if str_eq(text, "artist") {
            Some(FollowedArtistsType::Artist)
        } else {
            None
        }
    }
}

impl FromJson for FollowedArtistsType {
    open spec fn decodes(json: JsonValue, value: Self) -> bool {
        json matches JsonValue::Str(text) && Self::named(text) == Some(value)
    }

    open spec fn defect(json: JsonValue) -> Option<DecodeError> {
        match json {
            JsonValue::Str(text) => if Self::named(text) is Some {
                None
            } else {
                Some(DecodeError::UnknownVariant)
            },
            _ => Some(DecodeError::ExpectedString),
        }
    }

    open spec fn spec_target() -> Seq<char> {
        "FollowedArtistsType"@
    }

    fn target() -> (r: &'static str) {
        "FollowedArtistsType"
    }

    fn from_json(json: &Json) -> (r: Result<Self, DecodeError>) {
        proof {
            lemma_json_view(*json);
        }
        match json {
            Json::Str(text) => match Self::from_name(text.as_str()) {
                Some(value) => Ok(value),
                None => Err(DecodeError::UnknownVariant),
            },
            _ => Err(DecodeError::ExpectedString),
        }
    }
}

impl FollowedArtistsType {
    /// The text that this value is displayed as.
    pub open spec fn spec_text(&self) -> Seq<char> {
        match self {
            FollowedArtistsType::Artist => "artist"@,
        }
    }

    /// The text that this value is displayed as.
    pub fn as_str(&self) -> (r: &'static str)
        ensures
            r@ == self.spec_text(),
    {
        match self {
            FollowedArtistsType::Artist => "artist",
        }
    }

    /// The text that this value is displayed as.
    pub fn to_string(&self) -> (r: String)
        ensures
            r@ == self.spec_text(),
    {
        String::from_str(self.as_str())
    }
}

/// The type of entity to follow (artist or user).
#[derive(Debug, Clone, Copy, PartialEq, Eq, Structural)]
pub enum FollowType {
    Artist,
    User,
}

impl FollowType {
    /// The value that the service writes as `text`.
    pub open spec fn named(text: Seq<char>) -> Option<Self> {
        if text == "artist"@ {
            Some(FollowType::Artist)
        }         else if text == "user"@ {
            Some(FollowType::User)
        } else {
            None
        }
    }

    /// The value that the service writes as `text`.
    pub fn from_name(text: &str) -> (r: Option<Self>)
        ensures
            r == Self::named(text@),
    {
        if str_eq(text, "artist") {
            Some(FollowType::Artist)
        }         else if str_eq(text, "user") {
            Some(FollowType::User)
        } else {
            None
        }
    }
}

impl FromJson for FollowType {
    open spec fn decodes(json: JsonValue, value: Self) -> bool {
        json matches JsonValue::Str(text) && Self::named(text) == Some(value)
    }

    open spec fn defect(json: JsonValue) -> Option<DecodeError> {
        match json {
            JsonValue::Str(text) => if Self::named(text) is Some {
                None
            } else {
                Some(DecodeError::UnknownVariant)
            },
            _ => Some(DecodeError::ExpectedString),
        }
    }

    open spec fn spec_target() -> Seq<char> {
        "FollowType"@
    }

    fn target() -> (r: &'static str) {
        "FollowType"
    }

    fn from_json(json: &Json) -> (r: Result<Self, DecodeError>) {
        proof {
            lemma_json_view(*json);
        }
        match json {
            Json::Str(text) => match Self::from_name(text.as_str()) {
                Some(value) => Ok(value),
                None => Err(DecodeError::UnknownVariant),
            },
            _ => Err(DecodeError::ExpectedString),
        }
    }
}

impl FollowType {
    /// The text that this value is displayed as.
    pub open spec fn spec_text(&self) -> Seq<char> {
        match self {
            FollowType::Artist => "artist"@,
            FollowType::User => "user"@,
        }
    }

    /// The text that this value is displayed as.
    pub fn as_str(&self) -> (r: &'static str)
        ensures
            r@ == self.spec_text(),
    {
        match self {
            FollowType::Artist => "artist",
            FollowType::User => "user",
        }
    }

    /// The text that this value is displayed as.
    pub fn to_string(&self) -> (r: String)
        ensures
            r@ == self.spec_text(),
    {
        String::from_str(self.as_str())
    }
}

/// Type of external content to include in search results.
#[derive(Debug, Clone, Copy, PartialEq, Eq, Structural)]
pub enum IncludeExternalType {
    Audio,
}

impl IncludeExternalType {
    /// The value that the service writes as `text`.
    pub open spec fn named(text: Seq<char>) -> Option<Self> {
        if text == "audio"@ {
            Some(IncludeExternalType::Audio)
        } else {
            None
        }
    }

    /// The value that the service writes as `text`.
    pub fn from_name(text: &str) -> (r: Option<Self>)
        ensures
            r == Self::named(text@),
    {
        if str_eq(text, "audio") {
            Some(IncludeExternalType::Audio)
        } else {
            None
        }
    }
}

impl FromJson for IncludeExternalType {
    open spec fn decodes(json: JsonValue, value: Self) -> bool {
        json matches JsonValue::Str(text) && Self::named(text) == Some(value)
    }

    open spec fn defect(json: JsonValue) -> Option<DecodeError> {
        match json {
            JsonValue::Str(text) => if Self::named(text) is Some {
                None
            } else {
                Some(DecodeError::UnknownVariant)
            },
            _ => Some(DecodeError::ExpectedString),
        }
    }

    open spec fn spec_target() -> Seq<char> {
        "IncludeExternalType"@
    }

    fn target() -> (r: &'static str) {
        "IncludeExternalType"
    }

    fn from_json(json: &Json) -> (r: Result<Self, DecodeError>) {
        proof {
            lemma_json_view(*json);
        }
        match json {
            Json::Str(text) => match Self::from_name(text.as_str()) {
                Some(value) => Ok(value),
                None => Err(DecodeError::UnknownVariant),
            },
            _ => Err(DecodeError::ExpectedString),
        }
    }
}

impl IncludeExternalType {
    /// The text that this value is displayed as.
    pub open spec fn spec_text(&self) -> Seq<char> {
        match self {
            IncludeExternalType::Audio => "audio"@,
        }
    }

    /// The text that this value is displayed as.
    pub fn as_str(&self) -> (r: &'static str)
        ensures
            r@ == self.spec_text(),
    {
        match self {
            IncludeExternalType::Audio => "audio",
        }
    }

    /// The text that this value is displayed as.
    pub fn to_string(&self) -> (r: String)
        ensures
            r@ == self.spec_text(),
    {
        String::from_str(self.as_str())
    }
}

impl TrackItem {
    /// The Spotify ID of the item.
    pub fn id(&self) -> (r: &str)
        ensures
            r@ == match self {
                TrackItem::Track(track) => track.id@,
                TrackItem::Episode(episode) => episode.id@,
            },
    {
        match self {
            TrackItem::Track(track) => track.id.as_str(),
            TrackItem::Episode(episode) => episode.id.as_str(),
        }
    }

    /// The name of the item.
    pub fn name(&self) -> (r: &str)
        ensures
            r@ == match self {
                TrackItem::Track(track) => track.name@,
                TrackItem::Episode(episode) => episode.name@,
            },
    {
        match self {
            TrackItem::Track(track) => track.name.as_str(),
            TrackItem::Episode(episode) => episode.name.as_str(),
        }
    }

    /// Whether the item can be played; a track that does not say so counts
    /// as one that cannot.
    pub fn is_playable(&self) -> (r: bool)
        ensures
            r == match self {
                TrackItem::Track(track) => track.is_playable == Some(true),
                TrackItem::Episode(episode) => episode.is_playable,
            },
    {
        match self {
            TrackItem::Track(track) => match track.is_playable {
                Some(playable) => playable,
                None => false,
            },
            TrackItem::Episode(episode) => episode.is_playable,
        }
    }

    /// The length of the item in milliseconds.
    pub fn duration_ms(&self) -> (r: u32)
        ensures
            r == match self {
                TrackItem::Track(track) => track.duration_ms,
                TrackItem::Episode(episode) => episode.duration_ms,
            },
    {
        match self {
            TrackItem::Track(track) => track.duration_ms,
            TrackItem::Episode(episode) => episode.duration_ms,
        }
    }

    /// The Spotify URL of the item.
    pub fn external_url(&self) -> (r: &str)
        ensures
            r@ == match self {
                TrackItem::Track(track) => track.external_urls.spotify@,
                TrackItem::Episode(episode) => episode.external_urls.spotify@,
            },
    {
        match self {
            TrackItem::Track(track) => track.external_urls.spotify.as_str(),
            TrackItem::Episode(episode) => episode.external_urls.spotify.as_str(),
        }
    }

    /// A link to the Web API endpoint providing full details of the item.
    pub fn href(&self) -> (r: &str)
        ensures
            r@ == match self {
                TrackItem::Track(track) => track.href@,
                TrackItem::Episode(episode) => episode.href@,
            },
    {
        match self {
            TrackItem::Track(track) => track.href.as_str(),
            TrackItem::Episode(episode) => episode.href.as_str(),
        }
    }

    /// The restrictions applied to the item, if any.
    pub fn restrictions(&self) -> (r: Option<&Restrictions>)
        ensures
            match self {
                TrackItem::Track(track) => match track.restrictions {
                    Some(x) => r == Some(&x),
                    None => r is None,
                },
                TrackItem::Episode(episode) => match episode.restrictions {
                    Some(x) => r == Some(&x),
                    None => r is None,
                },
            },
    {
        match self {
            TrackItem::Track(track) => match &track.restrictions {
                Some(x) => Some(x),
                None => None,
            },
            TrackItem::Episode(episode) => match &episode.restrictions {
                Some(x) => Some(x),
                None => None,
            },
        }
    }

    /// Whether the item has explicit content.
    pub fn explicit(&self) -> (r: bool)
        ensures
            r == match self {
                TrackItem::Track(track) => track.explicit,
                TrackItem::Episode(episode) => episode.explicit,
            },
    {
        match self {
            TrackItem::Track(track) => track.explicit,
            TrackItem::Episode(episode) => episode.explicit,
        }
    }

    /// The Spotify URI of the item.
    pub fn uri(&self) -> (r: &str)
        ensures
            r@ == match self {
                TrackItem::Track(track) => track.uri@,
                TrackItem::Episode(episode) => episode.uri@,
            },
    {
        match self {
            TrackItem::Track(track) => track.uri.as_str(),
            TrackItem::Episode(episode) => episode.uri.as_str(),
        }
    }
}

/// A paginated list of the user's top items.
pub type TopItems = Page<TopItem>;

impl ParamValue for &TimeRange {
    open spec fn spec_value(&self) -> Seq<char> {
        self.spec_text()
    }

    fn as_value(&self) -> (r: String) {
        self.to_string()
    }
}

impl ParamValue for FollowedArtistsType {
    open spec fn spec_value(&self) -> Seq<char> {
        self.spec_text()
    }

    fn as_value(&self) -> (r: String) {
        self.to_string()
    }
}

impl ParamValue for FollowType {
    open spec fn spec_value(&self) -> Seq<char> {
        self.spec_text()
    }

    fn as_value(&self) -> (r: String) {
        self.to_string()
    }
}

impl ParamValue for &IncludeExternalType {
    open spec fn spec_value(&self) -> Seq<char> {
        self.spec_text()
    }

    fn as_value(&self) -> (r: String) {
        self.to_string()
    }
}

} // verus!
