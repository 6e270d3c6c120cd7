//! Chapters of audiobooks.

use vstd::prelude::*;
use vstd::string::*;
use crate::api::error::DecodeError;
use crate::decode::{field, field_decodes, field_defect, list, list_decodes, list_defect, FromJson};
use crate::json::{Json, JsonValue};
use crate::model::audiobooks::SimplifiedAudiobook;
use crate::model::markets::Market;
use crate::model::misc::ExternalUrls;
use crate::model::misc::Image;
use crate::model::misc::ItemType;
use crate::model::misc::ReleaseDatePrecision;
use crate::model::misc::Restrictions;
use crate::model::misc::ResumePoint;

verus! {

/// Full audiobook chapter information from the Spotify catalog.
///
/// Contains complete details about a chapter including its parent audiobook,
/// chapter number, release date, duration, and playback resume point.
#[derive(Debug, Clone, PartialEq, Eq)]
pub struct Chapter {
    /// A list of the countries in which the audiobook can be played, identified by their [ISO 3166-1 alpha-2](http://en.wikipedia.org/wiki/ISO_3166-1_alpha-2) code.
    pub available_markets: Vec<Market>,
    /// The number of the chapter.
    pub chapter_number: u32,
    /// A description of the chapter. HTML tags are stripped away from this field,
    /// use `html_description` field in case HTML tags are needed.
    pub description: String,
    /// A description of the chapter. This field may contain HTML tags.
    pub html_description: String,
    /// The chapter length in milliseconds.
    pub duration_ms: u32,
    /// Whether or not the chapter has explicit content (true = yes it does; false = no it does not OR unknown).
    pub explicit: bool,
    /// External URLs for this chapter.
    pub external_urls: ExternalUrls,
    /// A link to the Web API endpoint providing full details of the chapter.
    pub href: String,
    /// The [Spotify ID](https://developer.spotify.com/documentation/web-api/concepts/spotify-uris-ids) for the chapter.
    pub id: String,
    /// The cover art for the chapter in various sizes, widest first.
    pub images: Vec<Image>,
    /// True if the chapter is playable in the given market. Otherwise false.
    pub is_playable: Option<bool>,
    /// A list of the languages used in the chapter, identified by their [ISO 639-1](https://en.wikipedia.org/wiki/ISO_639) code.
    pub languages: Vec<String>,
    /// The name of the chapter.
    pub name: String,
    /// The date the chapter was first released, for example "1981-12-15".
    pub release_date: String,
    /// The precision with which `release_date` value is known.
    pub release_date_precision: Option<ReleaseDatePrecision>,
    /// The user's most recent position in the chapter.
    /// Set if the supplied access token is a user token and has the scope 'user-read-playback-position'.
    pub resume_point: Option<ResumePoint>,
    /// The object type.
    ///
    /// Allowed values: "episode"
    pub type_: ItemType,
    /// The [Spotify URI](https://developer.spotify.com/documentation/web-api/concepts/spotify-uris-ids) for the chapter.
    pub uri: String,
    /// Included in the response when a content restriction is applied.
    pub restrictions: Option<Restrictions>,
    /// The audiobook for which the chapter belongs.
    pub audiobook: SimplifiedAudiobook,
}

impl FromJson for Chapter {
    open spec fn decodes(json: JsonValue, value: Self) -> bool {
        &&& list_decodes::<Market>(json, "available_markets"@, value.available_markets)
        &&& field_decodes::<u32>(json, "chapter_number"@, value.chapter_number)
        &&& field_decodes::<String>(json, "description"@, value.description)
        &&& field_decodes::<String>(json, "html_description"@, value.html_description)
        &&& field_decodes::<u32>(json, "duration_ms"@, value.duration_ms)
        &&& field_decodes::<bool>(json, "explicit"@, value.explicit)
        &&& field_decodes::<ExternalUrls>(json, "external_urls"@, value.external_urls)
        &&& field_decodes::<String>(json, "href"@, value.href)
        &&& field_decodes::<String>(json, "id"@, value.id)
        &&& field_decodes::<Vec<Image>>(json, "images"@, value.images)
        &&& field_decodes::<Option<bool>>(json, "is_playable"@, value.is_playable)
        &&& field_decodes::<Vec<String>>(json, "languages"@, value.languages)
        &&& field_decodes::<String>(json, "name"@, value.name)
        &&& field_decodes::<String>(json, "release_date"@, value.release_date)
        &&& field_decodes::<Option<ReleaseDatePrecision>>(json, "release_date_precision"@, value.release_date_precision)
        &&& field_decodes::<Option<ResumePoint>>(json, "resume_point"@, value.resume_point)
        &&& field_decodes::<ItemType>(json, "type"@, value.type_)
        &&& field_decodes::<String>(json, "uri"@, value.uri)
        &&& field_decodes::<Option<Restrictions>>(json, "restrictions"@, value.restrictions)
        &&& field_decodes::<SimplifiedAudiobook>(json, "audiobook"@, value.audiobook)
    }

    open spec fn defect(json: JsonValue) -> Option<DecodeError> {
        if list_defect::<Market>(json, "available_markets"@) is Some {
            list_defect::<Market>(json, "available_markets"@)
        } else if field_defect::<u32>(json, "chapter_number"@) is Some {
            field_defect::<u32>(json, "chapter_number"@)
        } else if field_defect::<String>(json, "description"@) is Some {
            field_defect::<String>(json, "description"@)
        } else if field_defect::<String>(json, "html_description"@) is Some {
            field_defect::<String>(json, "html_description"@)
        } else if field_defect::<u32>(json, "duration_ms"@) is Some {
            field_defect::<u32>(json, "duration_ms"@)
        } else if field_defect::<bool>(json, "explicit"@) is Some {
            field_defect::<bool>(json, "explicit"@)
        } else if field_defect::<ExternalUrls>(json, "external_urls"@) is Some {
            field_defect::<ExternalUrls>(json, "external_urls"@)
        } else if field_defect::<String>(json, "href"@) is Some {
            field_defect::<String>(json, "href"@)
        } else if field_defect::<String>(json, "id"@) is Some {
            field_defect::<String>(json, "id"@)
        } else if field_defect::<Vec<Image>>(json, "images"@) is Some {
            field_defect::<Vec<Image>>(json, "images"@)
        } else if field_defect::<Option<bool>>(json, "is_playable"@) is Some {
            field_defect::<Option<bool>>(json, "is_playable"@)
        } else if field_defect::<Vec<String>>(json, "languages"@) is Some {
            field_defect::<Vec<String>>(json, "languages"@)
        } else if field_defect::<String>(json, "name"@) is Some {
            field_defect::<String>(json, "name"@)
        } else if field_defect::<String>(json, "release_date"@) is Some {
            field_defect::<String>(json, "release_date"@)
        } else if field_defect::<Option<ReleaseDatePrecision>>(json, "release_date_precision"@) is Some {
            field_defect::<Option<ReleaseDatePrecision>>(json, "release_date_precision"@)
        } else if field_defect::<Option<ResumePoint>>(json, "resume_point"@) is Some {
            field_defect::<Option<ResumePoint>>(json, "resume_point"@)
        } else if field_defect::<ItemType>(json, "type"@) is Some {
            field_defect::<ItemType>(json, "type"@)
        } else if field_defect::<String>(json, "uri"@) is Some {
            field_defect::<String>(json, "uri"@)
        } else if field_defect::<Option<Restrictions>>(json, "restrictions"@) is Some {
            field_defect::<Option<Restrictions>>(json, "restrictions"@)
        } else {
            field_defect::<SimplifiedAudiobook>(json, "audiobook"@)
        }
    }

    open spec fn spec_target() -> Seq<char> {
        "Chapter"@
    }

    fn target() -> (r: &'static str) {
        "Chapter"
    }

    fn from_json(json: &Json) -> (r: Result<Self, DecodeError>) {
        let available_markets = list::<Market>(json, "available_markets")?;
        let chapter_number = field::<u32>(json, "chapter_number")?;
        let description = field::<String>(json, "description")?;
        let html_description = field::<String>(json, "html_description")?;
        let duration_ms = field::<u32>(json, "duration_ms")?;
        let explicit = field::<bool>(json, "explicit")?;
        let external_urls = field::<ExternalUrls>(json, "external_urls")?;
        let href = field::<String>(json, "href")?;
        let id = field::<String>(json, "id")?;
        let images = field::<Vec<Image>>(json, "images")?;
        let is_playable = field::<Option<bool>>(json, "is_playable")?;
        let languages = field::<Vec<String>>(json, "languages")?;
        let name = field::<String>(json, "name")?;
        let release_date = field::<String>(json, "release_date")?;
        let release_date_precision = field::<Option<ReleaseDatePrecision>>(json, "release_date_precision")?;
        let resume_point = field::<Option<ResumePoint>>(json, "resume_point")?;
        let type_ = field::<ItemType>(json, "type")?;
        let uri = field::<String>(json, "uri")?;
        let restrictions = field::<Option<Restrictions>>(json, "restrictions")?;
        let audiobook = field::<SimplifiedAudiobook>(json, "audiobook")?;
        Ok(Chapter { available_markets, chapter_number, description, html_description, duration_ms, explicit, external_urls, href, id, images, is_playable, languages, name, release_date, release_date_precision, resume_point, type_, uri, restrictions, audiobook })
    }
}

/// Simplified audiobook chapter information with basic details only.
///
/// A lighter version of [`Chapter`] that omits the parent audiobook.
/// Commonly returned when chapters are nested within audiobook objects.
#[derive(Debug, Clone, PartialEq, Eq)]
pub struct SimplifiedChapter {
    /// A list of the countries in which the audiobook can be played, identified by their [ISO 3166-1 alpha-2](http://en.wikipedia.org/wiki/ISO_3166-1_alpha-2) code.
    pub available_markets: Vec<Market>,
    /// The number of the chapter.
    pub chapter_number: u32,
    /// A description of the chapter. HTML tags are stripped away from this field,
    /// use `html_description` field in case HTML tags are needed.
    pub description: String,
    /// A description of the chapter. This field may contain HTML tags.
    pub html_description: String,
    /// The chapter length in milliseconds.
    pub duration_ms: u32,
    /// Whether or not the chapter has explicit content (true = yes it does; false = no it does not OR unknown).
    pub explicit: bool,
    /// External URLs for this chapter.
    pub external_urls: ExternalUrls,
    /// A link to the Web API endpoint providing full details of the chapter.
    pub href: String,
    /// The [Spotify ID](https://developer.spotify.com/documentation/web-api/concepts/spotify-uris-ids) for the chapter.
    pub id: String,
    /// The cover art for the chapter in various sizes, widest first.
    pub images: Vec<Image>,
    /// True if the chapter is playable in the given market. Otherwise false.
    pub is_playable: Option<bool>,
    /// A list of the languages used in the chapter, identified by their [ISO 639-1](https://en.wikipedia.org/wiki/ISO_639) code.
    pub languages: Vec<String>,
    /// The name of the chapter.
    pub name: String,
    /// The date the chapter was first released, for example "1981-12-15".
    pub release_date: String,
    /// The precision with which `release_date` value is known.
    pub release_date_precision: Option<ReleaseDatePrecision>,
    /// The user's most recent position in the chapter.
    /// Set if the supplied access token is a user token and has the scope 'user-read-playback-position'.
    pub resume_point: Option<ResumePoint>,
    /// The object type.
    ///
    /// Allowed values: "episode"
    pub type_: ItemType,
    /// The [Spotify URI](https://developer.spotify.com/documentation/web-api/concepts/spotify-uris-ids) for the chapter.
    pub uri: String,
    /// Included in the response when a content restriction is applied.
    pub restrictions: Option<Restrictions>,
}

impl FromJson for SimplifiedChapter {
    open spec fn decodes(json: JsonValue, value: Self) -> bool {
        &&& list_decodes::<Market>(json, "available_markets"@, value.available_markets)
        &&& field_decodes::<u32>(json, "chapter_number"@, value.chapter_number)
        &&& field_decodes::<String>(json, "description"@, value.description)
        &&& field_decodes::<String>(json, "html_description"@, value.html_description)
        &&& field_decodes::<u32>(json, "duration_ms"@, value.duration_ms)
        &&& field_decodes::<bool>(json, "explicit"@, value.explicit)
        &&& field_decodes::<ExternalUrls>(json, "external_urls"@, value.external_urls)
        &&& field_decodes::<String>(json, "href"@, value.href)
        &&& field_decodes::<String>(json, "id"@, value.id)
        &&& field_decodes::<Vec<Image>>(json, "images"@, value.images)
        &&& field_decodes::<Option<bool>>(json, "is_playable"@, value.is_playable)
        &&& field_decodes::<Vec<String>>(json, "languages"@, value.languages)
        &&& field_decodes::<String>(json, "name"@, value.name)
        &&& field_decodes::<String>(json, "release_date"@, value.release_date)
        &&& field_decodes::<Option<ReleaseDatePrecision>>(json, "release_date_precision"@, value.release_date_precision)
        &&& field_decodes::<Option<ResumePoint>>(json, "resume_point"@, value.resume_point)
        &&& field_decodes::<ItemType>(json, "type"@, value.type_)
        &&& field_decodes::<String>(json, "uri"@, value.uri)
        &&& field_decodes::<Option<Restrictions>>(json, "restrictions"@, value.restrictions)
    }

    open spec fn defect(json: JsonValue) -> Option<DecodeError> {
        if list_defect::<Market>(json, "available_markets"@) is Some {
            list_defect::<Market>(json, "available_markets"@)
        } else if field_defect::<u32>(json, "chapter_number"@) is Some {
            field_defect::<u32>(json, "chapter_number"@)
        } else if field_defect::<String>(json, "description"@) is Some {
            field_defect::<String>(json, "description"@)
        } else if field_defect::<String>(json, "html_description"@) is Some {
            field_defect::<String>(json, "html_description"@)
        } else if field_defect::<u32>(json, "duration_ms"@) is Some {
            field_defect::<u32>(json, "duration_ms"@)
        } else if field_defect::<bool>(json, "explicit"@) is Some {
            field_defect::<bool>(json, "explicit"@)
        } else if field_defect::<ExternalUrls>(json, "external_urls"@) is Some {
            field_defect::<ExternalUrls>(json, "external_urls"@)
        } else if field_defect::<String>(json, "href"@) is Some {
            field_defect::<String>(json, "href"@)
        } else if field_defect::<String>(json, "id"@) is Some {
            field_defect::<String>(json, "id"@)
        } else if field_defect::<Vec<Image>>(json, "images"@) is Some {
            field_defect::<Vec<Image>>(json, "images"@)
        } else if field_defect::<Option<bool>>(json, "is_playable"@) is Some {
            field_defect::<Option<bool>>(json, "is_playable"@)
        } else if field_defect::<Vec<String>>(json, "languages"@) is Some {
            field_defect::<Vec<String>>(json, "languages"@)
        } else if field_defect::<String>(json, "name"@) is Some {
            field_defect::<String>(json, "name"@)
        } else if field_defect::<String>(json, "release_date"@) is Some {
            field_defect::<String>(json, "release_date"@)
        } else if field_defect::<Option<ReleaseDatePrecision>>(json, "release_date_precision"@) is Some {
            field_defect::<Option<ReleaseDatePrecision>>(json, "release_date_precision"@)
        } else if field_defect::<Option<ResumePoint>>(json, "resume_point"@) is Some {
            field_defect::<Option<ResumePoint>>(json, "resume_point"@)
        } else if field_defect::<ItemType>(json, "type"@) is Some {
            field_defect::<ItemType>(json, "type"@)
        } else if field_defect::<String>(json, "uri"@) is Some {
            field_defect::<String>(json, "uri"@)
        } else {
            field_defect::<Option<Restrictions>>(json, "restrictions"@)
        }
    }

    open spec fn spec_target() -> Seq<char> {
        "SimplifiedChapter"@
    }

    fn target() -> (r: &'static str) {
        "SimplifiedChapter"
    }

    fn from_json(json: &Json) -> (r: Result<Self, DecodeError>) {
        let available_markets = list::<Market>(json, "available_markets")?;
        let chapter_number = field::<u32>(json, "chapter_number")?;
        let description = field::<String>(json, "description")?;
        let html_description = field::<String>(json, "html_description")?;
        let duration_ms = field::<u32>(json, "duration_ms")?;
        let explicit = field::<bool>(json, "explicit")?;
        let external_urls = field::<ExternalUrls>(json, "external_urls")?;
        let href = field::<String>(json, "href")?;
        let id = field::<String>(json, "id")?;
        let images = field::<Vec<Image>>(json, "images")?;
        let is_playable = field::<Option<bool>>(json, "is_playable")?;
        let languages = field::<Vec<String>>(json, "languages")?;
        let name = field::<String>(json, "name")?;
        let release_date = field::<String>(json, "release_date")?;
        let release_date_precision = field::<Option<ReleaseDatePrecision>>(json, "release_date_precision")?;
        let resume_point = field::<Option<ResumePoint>>(json, "resume_point")?;
        let type_ = field::<ItemType>(json, "type")?;
        let uri = field::<String>(json, "uri")?;
        let restrictions = field::<Option<Restrictions>>(json, "restrictions")?;
        Ok(SimplifiedChapter { available_markets, chapter_number, description, html_description, duration_ms, explicit, external_urls, href, id, images, is_playable, languages, name, release_date, release_date_precision, resume_point, type_, uri, restrictions })
    }
}

impl vstd::std_specs::convert::FromSpecImpl<Chapter> for SimplifiedChapter {
    open spec fn obeys_from_spec() -> bool {
        true
    }

    open spec fn from_spec(chapter: Chapter) -> Self {
        SimplifiedChapter {
            available_markets: chapter.available_markets,
            chapter_number: chapter.chapter_number,
            description: chapter.description,
            html_description: chapter.html_description,
            duration_ms: chapter.duration_ms,
            explicit: chapter.explicit,
            external_urls: chapter.external_urls,
            href: chapter.href,
            id: chapter.id,
            images: chapter.images,
            is_playable: chapter.is_playable,
            languages: chapter.languages,
            name: chapter.name,
            release_date: chapter.release_date,
            release_date_precision: chapter.release_date_precision,
            resume_point: chapter.resume_point,
            type_: chapter.type_,
            uri: chapter.uri,
            restrictions: chapter.restrictions,
        }
    }
}

impl From<Chapter> for SimplifiedChapter {
    fn from(chapter: Chapter) -> (r: Self) {
        SimplifiedChapter {
            available_markets: chapter.available_markets,
            chapter_number: chapter.chapter_number,
            description: chapter.description,
            html_description: chapter.html_description,
            duration_ms: chapter.duration_ms,
            explicit: chapter.explicit,
            external_urls: chapter.external_urls,
            href: chapter.href,
            id: chapter.id,
            images: chapter.images,
            is_playable: chapter.is_playable,
            languages: chapter.languages,
            name: chapter.name,
            release_date: chapter.release_date,
            release_date_precision: chapter.release_date_precision,
            resume_point: chapter.resume_point,
            type_: chapter.type_,
            uri: chapter.uri,
            restrictions: chapter.restrictions,
        }
    }
}

/// Spotify catalog information for several audiobook chapters
#[derive(Debug, Clone, PartialEq, Eq)]
pub struct Chapters {
    pub chapters: Vec<Option<Chapter>>,
}

impl FromJson for Chapters {
    open spec fn decodes(json: JsonValue, value: Self) -> bool {
        &&& field_decodes::<Vec<Option<Chapter>>>(json, "chapters"@, value.chapters)
    }

    open spec fn defect(json: JsonValue) -> Option<DecodeError> {
        field_defect::<Vec<Option<Chapter>>>(json, "chapters"@)
    }

    open spec fn spec_target() -> Seq<char> {
        "Chapters"@
    }

    fn target() -> (r: &'static str) {
        "Chapters"
    }

    fn from_json(json: &Json) -> (r: Result<Self, DecodeError>) {
        let chapters = field::<Vec<Option<Chapter>>>(json, "chapters")?;
        Ok(Chapters { chapters })
    }
}

} // verus!
