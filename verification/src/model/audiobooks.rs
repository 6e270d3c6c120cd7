//! Audiobooks, their authors and narrators.

use vstd::prelude::*;
use vstd::string::*;
use crate::api::error::DecodeError;
use crate::decode::{field, field_decodes, field_defect, list, list_decodes, list_defect, FromJson};
use crate::json::{Json, JsonValue};
use crate::model::chapters::SimplifiedChapter;
use crate::model::markets::Market;
use crate::model::misc::Copyright;
use crate::model::misc::ExternalUrls;
use crate::model::misc::Image;
use crate::model::misc::ItemType;
use crate::model::misc::Page;

verus! {

/// An audiobook author.
#[derive(Debug, Clone, PartialEq, Eq)]
pub struct Author {
    /// The name of the author.
    pub name: String,
}

impl FromJson for Author {
    open spec fn decodes(json: JsonValue, value: Self) -> bool {
        &&& field_decodes::<String>(json, "name"@, value.name)
    }

    open spec fn defect(json: JsonValue) -> Option<DecodeError> {
        field_defect::<String>(json, "name"@)
    }

    open spec fn spec_target() -> Seq<char> {
        "Author"@
    }

    fn target() -> (r: &'static str) {
        "Author"
    }

    fn from_json(json: &Json) -> (r: Result<Self, DecodeError>) {
        let name = field::<String>(json, "name")?;
        Ok(Author { name })
    }
}

/// An audiobook narrator.
#[derive(Debug, Clone, PartialEq, Eq)]
pub struct Narrator {
    /// The name of the Narrator.
    pub name: String,
}

impl FromJson for Narrator {
    open spec fn decodes(json: JsonValue, value: Self) -> bool {
        &&& field_decodes::<String>(json, "name"@, value.name)
    }

    open spec fn defect(json: JsonValue) -> Option<DecodeError> {
        field_defect::<String>(json, "name"@)
    }

    open spec fn spec_target() -> Seq<char> {
        "Narrator"@
    }

    fn target() -> (r: &'static str) {
        "Narrator"
    }

    fn from_json(json: &Json) -> (r: Result<Self, DecodeError>) {
        let name = field::<String>(json, "name")?;
        Ok(Narrator { name })
    }
}

/// Full audiobook information from the Spotify catalog.
///
/// Contains complete details about an audiobook including its chapters
/// (when the `page_items` feature is enabled), authors, narrators,
/// copyright information, and available markets.
#[derive(Debug, Clone, PartialEq, Eq)]
pub struct Audiobook {
    /// The author(s) for the audiobook.
    pub authors: Vec<Author>,
    /// A list of the countries in which the audiobook can be played, identified by their [ISO 3166-1 alpha-2](http://en.wikipedia.org/wiki/ISO_3166-1_alpha-2) code.
    pub available_markets: Vec<Market>,
    /// The copyright statements of the audiobook.
    pub copyrights: Vec<Copyright>,
    /// A description of the audiobook. HTML tags are stripped away from this field,
    /// use `html_description` field in case HTML tags are needed.
    pub description: String,
    /// A description of the audiobook. This field may contain HTML tags.
    pub html_description: String,
    /// The edition of the audiobook.
    pub edition: String,
    /// Whether or not the audiobook has explicit content
    /// (true = yes it does; false = no it does not OR unknown).
    pub explicit: bool,
    /// External URLs for this audiobook.
    pub external_urls: ExternalUrls,
    /// A link to the Web API endpoint providing full details of the audiobook.
    pub href: String,
    /// The [Spotify ID](https://developer.spotify.com/documentation/web-api/concepts/spotify-uris-ids) for the audiobook.
    pub id: String,
    /// The cover art for the audiobook in various sizes, widest first.
    pub images: Vec<Image>,
    /// A list of the languages used in the audiobook, identified by their [ISO 639](https://en.wikipedia.org/wiki/ISO_639) code.
    pub languages: Vec<String>,
    /// The media type of the audiobook.
    pub media_type: String,
    /// The name of the audiobook.
    pub name: String,
    /// The narrator(s) for the audiobook.
    pub narrators: Vec<Narrator>,
    /// The publisher of the audiobook.
    pub publisher: String,
    /// The object type.
    ///
    /// Allowed values: "audiobook"
    pub type_: ItemType,
    /// The [Spotify URI](https://developer.spotify.com/documentation/web-api/concepts/spotify-uris-ids) for the audiobook.
    pub uri: String,
    /// The number of chapters in this audiobook.
    pub total_chapters: usize,
    /// A list of simplified chapters in this audiobook.
    pub chapters: Page<SimplifiedChapter>,
}

impl FromJson for Audiobook {
    open spec fn decodes(json: JsonValue, value: Self) -> bool {
        &&& field_decodes::<Vec<Author>>(json, "authors"@, value.authors)
        &&& list_decodes::<Market>(json, "available_markets"@, value.available_markets)
        &&& field_decodes::<Vec<Copyright>>(json, "copyrights"@, value.copyrights)
        &&& field_decodes::<String>(json, "description"@, value.description)
        &&& field_decodes::<String>(json, "html_description"@, value.html_description)
        &&& field_decodes::<String>(json, "edition"@, value.edition)
        &&& field_decodes::<bool>(json, "explicit"@, value.explicit)
        &&& field_decodes::<ExternalUrls>(json, "external_urls"@, value.external_urls)
        &&& field_decodes::<String>(json, "href"@, value.href)
        &&& field_decodes::<String>(json, "id"@, value.id)
        &&& field_decodes::<Vec<Image>>(json, "images"@, value.images)
        &&& field_decodes::<Vec<String>>(json, "languages"@, value.languages)
        &&& field_decodes::<String>(json, "media_type"@, value.media_type)
        &&& field_decodes::<String>(json, "name"@, value.name)
        &&& field_decodes::<Vec<Narrator>>(json, "narrators"@, value.narrators)
        &&& field_decodes::<String>(json, "publisher"@, value.publisher)
        &&& field_decodes::<ItemType>(json, "type"@, value.type_)
        &&& field_decodes::<String>(json, "uri"@, value.uri)
        &&& field_decodes::<usize>(json, "total_chapters"@, value.total_chapters)
        &&& field_decodes::<Page<SimplifiedChapter>>(json, "chapters"@, value.chapters)
    }

    open spec fn defect(json: JsonValue) -> Option<DecodeError> {
        if field_defect::<Vec<Author>>(json, "authors"@) is Some {
            field_defect::<Vec<Author>>(json, "authors"@)
        } else if list_defect::<Market>(json, "available_markets"@) is Some {
            list_defect::<Market>(json, "available_markets"@)
        } else if field_defect::<Vec<Copyright>>(json, "copyrights"@) is Some {
            field_defect::<Vec<Copyright>>(json, "copyrights"@)
        } else if field_defect::<String>(json, "description"@) is Some {
            field_defect::<String>(json, "description"@)
        } else if field_defect::<String>(json, "html_description"@) is Some {
            field_defect::<String>(json, "html_description"@)
        } else if field_defect::<String>(json, "edition"@) is Some {
            field_defect::<String>(json, "edition"@)
        } else if field_defect::<bool>(json, "explicit"@) is Some {
            field_defect::<bool>(json, "explicit"@)
        } else if field_defect::<ExternalUrls>(json, "external_urls"@) is Some {
            field_defect::<ExternalUrls>(json, "external_urls"@)
        } else if field_defect::<String>(json, "href"@) is Some {
            field_defect::<String>(json, "href"@)
        } else if field_defect::<String>(json, "id"@) is Some {
            field_defect::<String>(json, "id"@)
        } else if field_defect::<Vec<Image>>(json, "images"@) is Some {
            field_defect::<Vec<Image>>(json, "images"@)
        } else if field_defect::<Vec<String>>(json, "languages"@) is Some {
            field_defect::<Vec<String>>(json, "languages"@)
        } else if field_defect::<String>(json, "media_type"@) is Some {
            field_defect::<String>(json, "media_type"@)
        } else if field_defect::<String>(json, "name"@) is Some {
            field_defect::<String>(json, "name"@)
        } else if field_defect::<Vec<Narrator>>(json, "narrators"@) is Some {
            field_defect::<Vec<Narrator>>(json, "narrators"@)
        } else if field_defect::<String>(json, "publisher"@) is Some {
            field_defect::<String>(json, "publisher"@)
        } else if field_defect::<ItemType>(json, "type"@) is Some {
            field_defect::<ItemType>(json, "type"@)
        } else if field_defect::<String>(json, "uri"@) is Some {
            field_defect::<String>(json, "uri"@)
        } else if field_defect::<usize>(json, "total_chapters"@) is Some {
            field_defect::<usize>(json, "total_chapters"@)
        } else {
            field_defect::<Page<SimplifiedChapter>>(json, "chapters"@)
        }
    }

    open spec fn spec_target() -> Seq<char> {
        "Audiobook"@
    }

    fn target() -> (r: &'static str) {
        "Audiobook"
    }

    fn from_json(json: &Json) -> (r: Result<Self, DecodeError>) {
        let authors = field::<Vec<Author>>(json, "authors")?;
        let available_markets = list::<Market>(json, "available_markets")?;
        let copyrights = field::<Vec<Copyright>>(json, "copyrights")?;
        let description = field::<String>(json, "description")?;
        let html_description = field::<String>(json, "html_description")?;
        let edition = field::<String>(json, "edition")?;
        let explicit = field::<bool>(json, "explicit")?;
        let external_urls = field::<ExternalUrls>(json, "external_urls")?;
        let href = field::<String>(json, "href")?;
        let id = field::<String>(json, "id")?;
        let images = field::<Vec<Image>>(json, "images")?;
        let languages = field::<Vec<String>>(json, "languages")?;
        let media_type = field::<String>(json, "media_type")?;
        let name = field::<String>(json, "name")?;
        let narrators = field::<Vec<Narrator>>(json, "narrators")?;
        let publisher = field::<String>(json, "publisher")?;
        let type_ = field::<ItemType>(json, "type")?;
        let uri = field::<String>(json, "uri")?;
        let total_chapters = field::<usize>(json, "total_chapters")?;
        let chapters = field::<Page<SimplifiedChapter>>(json, "chapters")?;
        Ok(Audiobook { authors, available_markets, copyrights, description, html_description, edition, explicit, external_urls, href, id, images, languages, media_type, name, narrators, publisher, type_, uri, total_chapters, chapters })
    }
}

/// Simplified audiobook information with basic details only.
///
/// A lighter version of [`Audiobook`] that omits the chapters page.
/// Commonly returned when audiobooks are nested within other objects.
#[derive(Debug, Clone, PartialEq, Eq)]
pub struct SimplifiedAudiobook {
    /// The author(s) for the audiobook.
    pub authors: Vec<Author>,
    /// A list of the countries in which the audiobook can be played, identified by their [ISO 3166-1 alpha-2](http://en.wikipedia.org/wiki/ISO_3166-1_alpha-2) code.
    pub available_markets: Vec<Market>,
    /// The copyright statements of the audiobook.
    pub copyrights: Vec<Copyright>,
    /// A description of the audiobook. HTML tags are stripped away from this field,
    /// use `html_description` field in case HTML tags are needed.
    pub description: String,
    /// A description of the audiobook. This field may contain HTML tags.
    pub html_description: String,
    /// The edition of the audiobook.
    pub edition: Option<String>,
    /// Whether or not the audiobook has explicit content
    /// (true = yes it does; false = no it does not OR unknown).
    pub explicit: bool,
    /// External URLs for this audiobook.
    pub external_urls: ExternalUrls,
    /// A link to the Web API endpoint providing full details of the audiobook.
    pub href: String,
    /// The [Spotify ID](https://developer.spotify.com/documentation/web-api/concepts/spotify-uris-ids) for the audiobook.
    pub id: String,
    /// The cover art for the audiobook in various sizes, widest first.
    pub images: Vec<Image>,
    /// A list of the languages used in the audiobook, identified by their [ISO 639](https://en.wikipedia.org/wiki/ISO_639) code.
    pub languages: Vec<String>,
    /// The media type of the audiobook.
    pub media_type: String,
    /// The name of the audiobook.
    pub name: String,
    /// The narrator(s) for the audiobook.
    pub narrators: Vec<Narrator>,
    /// The publisher of the audiobook.
    pub publisher: String,
    /// The object type.
    ///
    /// Allowed values: "audiobook"
    pub type_: ItemType,
    /// The [Spotify URI](https://developer.spotify.com/documentation/web-api/concepts/spotify-uris-ids) for the audiobook.
    pub uri: String,
    /// The number of chapters in this audiobook.
    pub total_chapters: usize,
}

impl FromJson for SimplifiedAudiobook {
    open spec fn decodes(json: JsonValue, value: Self) -> bool {
        &&& field_decodes::<Vec<Author>>(json, "authors"@, value.authors)
        &&& list_decodes::<Market>(json, "available_markets"@, value.available_markets)
        &&& field_decodes::<Vec<Copyright>>(json, "copyrights"@, value.copyrights)
        &&& field_decodes::<String>(json, "description"@, value.description)
        &&& field_decodes::<String>(json, "html_description"@, value.html_description)
        &&& field_decodes::<Option<String>>(json, "edition"@, value.edition)
        &&& field_decodes::<bool>(json, "explicit"@, value.explicit)
        &&& field_decodes::<ExternalUrls>(json, "external_urls"@, value.external_urls)
        &&& field_decodes::<String>(json, "href"@, value.href)
        &&& field_decodes::<String>(json, "id"@, value.id)
        &&& field_decodes::<Vec<Image>>(json, "images"@, value.images)
        &&& field_decodes::<Vec<String>>(json, "languages"@, value.languages)
        &&& field_decodes::<String>(json, "media_type"@, value.media_type)
        &&& field_decodes::<String>(json, "name"@, value.name)
        &&& field_decodes::<Vec<Narrator>>(json, "narrators"@, value.narrators)
        &&& field_decodes::<String>(json, "publisher"@, value.publisher)
        &&& field_decodes::<ItemType>(json, "type"@, value.type_)
        &&& field_decodes::<String>(json, "uri"@, value.uri)
        &&& field_decodes::<usize>(json, "total_chapters"@, value.total_chapters)
    }

    open spec fn defect(json: JsonValue) -> Option<DecodeError> {
        if field_defect::<Vec<Author>>(json, "authors"@) is Some {
            field_defect::<Vec<Author>>(json, "authors"@)
        } else if list_defect::<Market>(json, "available_markets"@) is Some {
            list_defect::<Market>(json, "available_markets"@)
        } else if field_defect::<Vec<Copyright>>(json, "copyrights"@) is Some {
            field_defect::<Vec<Copyright>>(json, "copyrights"@)
        } else if field_defect::<String>(json, "description"@) is Some {
            field_defect::<String>(json, "description"@)
        } else if field_defect::<String>(json, "html_description"@) is Some {
            field_defect::<String>(json, "html_description"@)
        } else if field_defect::<Option<String>>(json, "edition"@) is Some {
            field_defect::<Option<String>>(json, "edition"@)
        } else if field_defect::<bool>(json, "explicit"@) is Some {
            field_defect::<bool>(json, "explicit"@)
        } else if field_defect::<ExternalUrls>(json, "external_urls"@) is Some {
            field_defect::<ExternalUrls>(json, "external_urls"@)
        } else if field_defect::<String>(json, "href"@) is Some {
            field_defect::<String>(json, "href"@)
        } else if field_defect::<String>(json, "id"@) is Some {
            field_defect::<String>(json, "id"@)
        } else if field_defect::<Vec<Image>>(json, "images"@) is Some {
            field_defect::<Vec<Image>>(json, "images"@)
        } else if field_defect::<Vec<String>>(json, "languages"@) is Some {
            field_defect::<Vec<String>>(json, "languages"@)
        } else if field_defect::<String>(json, "media_type"@) is Some {
            field_defect::<String>(json, "media_type"@)
        } else if field_defect::<String>(json, "name"@) is Some {
            field_defect::<String>(json, "name"@)
        } else if field_defect::<Vec<Narrator>>(json, "narrators"@) is Some {
            field_defect::<Vec<Narrator>>(json, "narrators"@)
        } else if field_defect::<String>(json, "publisher"@) is Some {
            field_defect::<String>(json, "publisher"@)
        } else if field_defect::<ItemType>(json, "type"@) is Some {
            field_defect::<ItemType>(json, "type"@)
        } else if field_defect::<String>(json, "uri"@) is Some {
            field_defect::<String>(json, "uri"@)
        } else {
            field_defect::<usize>(json, "total_chapters"@)
        }
    }

    open spec fn spec_target() -> Seq<char> {
        "SimplifiedAudiobook"@
    }

    fn target() -> (r: &'static str) {
        "SimplifiedAudiobook"
    }

    fn from_json(json: &Json) -> (r: Result<Self, DecodeError>) {
        let authors = field::<Vec<Author>>(json, "authors")?;
        let available_markets = list::<Market>(json, "available_markets")?;
        let copyrights = field::<Vec<Copyright>>(json, "copyrights")?;
        let description = field::<String>(json, "description")?;
        let html_description = field::<String>(json, "html_description")?;
        let edition = field::<Option<String>>(json, "edition")?;
        let explicit = field::<bool>(json, "explicit")?;
        let external_urls = field::<ExternalUrls>(json, "external_urls")?;
        let href = field::<String>(json, "href")?;
        let id = field::<String>(json, "id")?;
        let images = field::<Vec<Image>>(json, "images")?;
        let languages = field::<Vec<String>>(json, "languages")?;
        let media_type = field::<String>(json, "media_type")?;
        let name = field::<String>(json, "name")?;
        let narrators = field::<Vec<Narrator>>(json, "narrators")?;
        let publisher = field::<String>(json, "publisher")?;
        let type_ = field::<ItemType>(json, "type")?;
        let uri = field::<String>(json, "uri")?;
        let total_chapters = field::<usize>(json, "total_chapters")?;
        Ok(SimplifiedAudiobook { authors, available_markets, copyrights, description, html_description, edition, explicit, external_urls, href, id, images, languages, media_type, name, narrators, publisher, type_, uri, total_chapters })
    }
}

impl vstd::std_specs::convert::FromSpecImpl<Audiobook> for SimplifiedAudiobook {
    open spec fn obeys_from_spec() -> bool {
        true
    }

    open spec fn from_spec(audiobook: Audiobook) -> Self {
        SimplifiedAudiobook {
            authors: audiobook.authors,
            available_markets: audiobook.available_markets,
            copyrights: audiobook.copyrights,
            description: audiobook.description,
            html_description: audiobook.html_description,
            edition: Some(audiobook.edition),
            explicit: audiobook.explicit,
            external_urls: audiobook.external_urls,
            href: audiobook.href,
            id: audiobook.id,
            images: audiobook.images,
            languages: audiobook.languages,
            media_type: audiobook.media_type,
            name: audiobook.name,
            narrators: audiobook.narrators,
            publisher: audiobook.publisher,
            type_: audiobook.type_,
            uri: audiobook.uri,
            total_chapters: audiobook.total_chapters,
        }
    }
}

impl From<Audiobook> for SimplifiedAudiobook {
    fn from(audiobook: Audiobook) -> (r: Self) {
        SimplifiedAudiobook {
            authors: audiobook.authors,
            available_markets: audiobook.available_markets,
            copyrights: audiobook.copyrights,
            description: audiobook.description,
            html_description: audiobook.html_description,
            edition: Some(audiobook.edition),
            explicit: audiobook.explicit,
            external_urls: audiobook.external_urls,
            href: audiobook.href,
            id: audiobook.id,
            images: audiobook.images,
            languages: audiobook.languages,
            media_type: audiobook.media_type,
            name: audiobook.name,
            narrators: audiobook.narrators,
            publisher: audiobook.publisher,
            type_: audiobook.type_,
            uri: audiobook.uri,
            total_chapters: audiobook.total_chapters,
        }
    }
}

/// Spotify catalog information for several audiobooks
#[derive(Debug, Clone, PartialEq, Eq)]
pub struct Audiobooks {
    pub audiobooks: Vec<Option<Audiobook>>,
}

impl FromJson for Audiobooks {
    open spec fn decodes(json: JsonValue, value: Self) -> bool {
        &&& field_decodes::<Vec<Option<Audiobook>>>(json, "audiobooks"@, value.audiobooks)
    }

    open spec fn defect(json: JsonValue) -> Option<DecodeError> {
        field_defect::<Vec<Option<Audiobook>>>(json, "audiobooks"@)
    }

    open spec fn spec_target() -> Seq<char> {
        "Audiobooks"@
    }

    fn target() -> (r: &'static str) {
        "Audiobooks"
    }

    fn from_json(json: &Json) -> (r: Result<Self, DecodeError>) {
        let audiobooks = field::<Vec<Option<Audiobook>>>(json, "audiobooks")?;
        Ok(Audiobooks { audiobooks })
    }
}

} // verus!
