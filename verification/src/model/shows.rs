//! Shows.

use vstd::prelude::*;
use vstd::string::*;
use crate::api::error::DecodeError;
use crate::decode::{field, field_decodes, field_defect, list, list_decodes, list_defect, FromJson};
use crate::json::{Json, JsonValue};
use crate::model::episodes::SimplifiedEpisode;
use crate::model::markets::Market;
use crate::model::misc::Copyright;
use crate::model::misc::ExternalUrls;
use crate::model::misc::Image;
use crate::model::misc::ItemType;
use crate::model::misc::Page;

verus! {

/// Full show (podcast) information from the Spotify catalog.
///
/// Contains complete details about a show including its episodes
/// (when the `page_items` feature is enabled), description, publisher,
/// and available markets.
#[derive(Debug, Clone, PartialEq, Eq)]
pub struct Show {
    /// A list of the countries in which the show can be played, identified by their [ISO 3166-1 alpha-2](http://en.wikipedia.org/wiki/ISO_3166-1_alpha-2) code.
    pub available_markets: Vec<Market>,
    /// The copyright statements of the show.
    pub copyrights: Vec<Copyright>,
    /// A description of the show. HTML tags are stripped away from this field,
    /// use `html_description` field in case HTML tags are needed.
    pub description: String,
    /// A description of the show. This field may contain HTML tags.
    pub html_description: String,
    /// Whether or not the show has explicit content (true = yes it does; false = no it does not OR unknown).
    pub explicit: bool,
    /// External URLs for this show.
    pub external_urls: ExternalUrls,
    /// A link to the Web API endpoint providing full details of the show.
    pub href: String,
    /// The Spotify ID for the show.
    pub id: String,
    /// The cover art for the show in various sizes, widest first.
    pub images: Vec<Image>,
    /// True if all of the show’s episodes are hosted outside of Spotify’s CDN.
    pub is_externally_hosted: bool,
    /// A list of the languages used in the episode, identified by their [ISO 639-1](https://en.wikipedia.org/wiki/ISO_639) code.
    pub languages: Vec<String>,
    /// The media type of the show.
    pub media_type: String,
    /// The name of the show.
    pub name: String,
    /// The publisher of the show.
    pub publisher: String,
    /// The object type.
    ///
    /// Allowed values: "show"
    pub type_: ItemType,
    /// The [Spotify URI](https://developer.spotify.com/documentation/web-api/concepts/spotify-uris-ids) for the show.
    pub uri: String,
    /// The total number of episodes in the show.
    pub total_episodes: usize,
    /// The episodes of the show.
    pub episodes: Page<SimplifiedEpisode>,
}

impl FromJson for Show {
    open spec fn decodes(json: JsonValue, value: Self) -> bool {
        &&& list_decodes::<Market>(json, "available_markets"@, value.available_markets)
        &&& field_decodes::<Vec<Copyright>>(json, "copyrights"@, value.copyrights)
        &&& field_decodes::<String>(json, "description"@, value.description)
        &&& field_decodes::<String>(json, "html_description"@, value.html_description)
        &&& field_decodes::<bool>(json, "explicit"@, value.explicit)
        &&& field_decodes::<ExternalUrls>(json, "external_urls"@, value.external_urls)
        &&& field_decodes::<String>(json, "href"@, value.href)
        &&& field_decodes::<String>(json, "id"@, value.id)
        &&& field_decodes::<Vec<Image>>(json, "images"@, value.images)
        &&& field_decodes::<bool>(json, "is_externally_hosted"@, value.is_externally_hosted)
        &&& field_decodes::<Vec<String>>(json, "languages"@, value.languages)
        &&& field_decodes::<String>(json, "media_type"@, value.media_type)
        &&& field_decodes::<String>(json, "name"@, value.name)
        &&& field_decodes::<String>(json, "publisher"@, value.publisher)
        &&& field_decodes::<ItemType>(json, "type"@, value.type_)
        &&& field_decodes::<String>(json, "uri"@, value.uri)
        &&& field_decodes::<usize>(json, "total_episodes"@, value.total_episodes)
        &&& field_decodes::<Page<SimplifiedEpisode>>(json, "episodes"@, value.episodes)
    }

    open spec fn defect(json: JsonValue) -> Option<DecodeError> {
        if list_defect::<Market>(json, "available_markets"@) is Some {
            list_defect::<Market>(json, "available_markets"@)
        } else if field_defect::<Vec<Copyright>>(json, "copyrights"@) is Some {
            field_defect::<Vec<Copyright>>(json, "copyrights"@)
        } else if field_defect::<String>(json, "description"@) is Some {
            field_defect::<String>(json, "description"@)
        } else if field_defect::<String>(json, "html_description"@) is Some {
            field_defect::<String>(json, "html_description"@)
        } else if field_defect::<bool>(json, "explicit"@) is Some {
            field_defect::<bool>(json, "explicit"@)
        } else if field_defect::<ExternalUrls>(json, "external_urls"@) is Some {
            field_defect::<ExternalUrls>(json, "external_urls"@)
        } else if field_defect::<String>(json, "href"@) is Some {
            field_defect::<String>(json, "href"@)
        } else if field_defect::<String>(json, "id"@) is Some {
            field_defect::<String>(json, "id"@)
        } else if field_defect::<Vec<Image>>(json, "images"@) is Some {
            field_defect::<Vec<Image>>(json, "images"@)
        } else if field_defect::<bool>(json, "is_externally_hosted"@) is Some {
            field_defect::<bool>(json, "is_externally_hosted"@)
        } else if field_defect::<Vec<String>>(json, "languages"@) is Some {
            field_defect::<Vec<String>>(json, "languages"@)
        } else if field_defect::<String>(json, "media_type"@) is Some {
            field_defect::<String>(json, "media_type"@)
        } else if field_defect::<String>(json, "name"@) is Some {
            field_defect::<String>(json, "name"@)
        } else if field_defect::<String>(json, "publisher"@) is Some {
            field_defect::<String>(json, "publisher"@)
        } else if field_defect::<ItemType>(json, "type"@) is Some {
            field_defect::<ItemType>(json, "type"@)
        } else if field_defect::<String>(json, "uri"@) is Some {
            field_defect::<String>(json, "uri"@)
        } else if field_defect::<usize>(json, "total_episodes"@) is Some {
            field_defect::<usize>(json, "total_episodes"@)
        } else {
            field_defect::<Page<SimplifiedEpisode>>(json, "episodes"@)
        }
    }

    open spec fn spec_target() -> Seq<char> {
        "Show"@
    }

    fn target() -> (r: &'static str) {
        "Show"
    }

    fn from_json(json: &Json) -> (r: Result<Self, DecodeError>) {
        let available_markets = list::<Market>(json, "available_markets")?;
        let copyrights = field::<Vec<Copyright>>(json, "copyrights")?;
        let description = field::<String>(json, "description")?;
        let html_description = field::<String>(json, "html_description")?;
        let explicit = field::<bool>(json, "explicit")?;
        let external_urls = field::<ExternalUrls>(json, "external_urls")?;
        let href = field::<String>(json, "href")?;
        let id = field::<String>(json, "id")?;
        let images = field::<Vec<Image>>(json, "images")?;
        let is_externally_hosted = field::<bool>(json, "is_externally_hosted")?;
        let languages = field::<Vec<String>>(json, "languages")?;
        let media_type = field::<String>(json, "media_type")?;
        let name = field::<String>(json, "name")?;
        let publisher = field::<String>(json, "publisher")?;
        let type_ = field::<ItemType>(json, "type")?;
        let uri = field::<String>(json, "uri")?;
        let total_episodes = field::<usize>(json, "total_episodes")?;
        let episodes = field::<Page<SimplifiedEpisode>>(json, "episodes")?;
        Ok(Show { available_markets, copyrights, description, html_description, explicit, external_urls, href, id, images, is_externally_hosted, languages, media_type, name, publisher, type_, uri, total_episodes, episodes })
    }
}

/// Simplified show (podcast) information with basic details only.
///
/// A lighter version of [`Show`] that omits the episodes page.
/// Commonly returned when shows are nested within other objects like episodes.
#[derive(Debug, Clone, PartialEq, Eq)]
pub struct SimplifiedShow {
    /// A list of the countries in which the show can be played, identified by their [ISO 3166-1 alpha-2](http://en.wikipedia.org/wiki/ISO_3166-1_alpha-2) code.
    pub available_markets: Vec<Market>,
    /// The copyright statements of the show.
    pub copyrights: Vec<Copyright>,
    /// A description of the show. HTML tags are stripped away from this field,
    /// use `html_description` field in case HTML tags are needed.
    pub description: String,
    /// A description of the show. This field may contain HTML tags.
    pub html_description: String,
    /// Whether or not the show has explicit content (true = yes it does; false = no it does not OR unknown).
    pub explicit: bool,
    /// External URLs for this show.
    pub external_urls: ExternalUrls,
    /// A link to the Web API endpoint providing full details of the show.
    pub href: String,
    /// The Spotify ID for the show.
    pub id: String,
    /// The cover art for the show in various sizes, widest first.
    pub images: Vec<Image>,
    /// True if all of the show’s episodes are hosted outside of Spotify’s CDN.
    pub is_externally_hosted: bool,
    /// A list of the languages used in the episode, identified by their [ISO 639-1](https://en.wikipedia.org/wiki/ISO_639) code.
    pub languages: Vec<String>,
    /// The media type of the show.
    pub media_type: String,
    /// The name of the show.
    pub name: String,
    /// The publisher of the show.
    pub publisher: String,
    /// The object type.
    ///
    /// Allowed values: "show"
    pub type_: ItemType,
    /// The [Spotify URI](https://developer.spotify.com/documentation/web-api/concepts/spotify-uris-ids) for the show.
    pub uri: String,
    /// The total number of episodes in the show.
    pub total_episodes: usize,
}

impl FromJson for SimplifiedShow {
    open spec fn decodes(json: JsonValue, value: Self) -> bool {
        &&& list_decodes::<Market>(json, "available_markets"@, value.available_markets)
        &&& field_decodes::<Vec<Copyright>>(json, "copyrights"@, value.copyrights)
        &&& field_decodes::<String>(json, "description"@, value.description)
        &&& field_decodes::<String>(json, "html_description"@, value.html_description)
        &&& field_decodes::<bool>(json, "explicit"@, value.explicit)
        &&& field_decodes::<ExternalUrls>(json, "external_urls"@, value.external_urls)
        &&& field_decodes::<String>(json, "href"@, value.href)
        &&& field_decodes::<String>(json, "id"@, value.id)
        &&& field_decodes::<Vec<Image>>(json, "images"@, value.images)
        &&& field_decodes::<bool>(json, "is_externally_hosted"@, value.is_externally_hosted)
        &&& field_decodes::<Vec<String>>(json, "languages"@, value.languages)
        &&& field_decodes::<String>(json, "media_type"@, value.media_type)
        &&& field_decodes::<String>(json, "name"@, value.name)
        &&& field_decodes::<String>(json, "publisher"@, value.publisher)
        &&& field_decodes::<ItemType>(json, "type"@, value.type_)
        &&& field_decodes::<String>(json, "uri"@, value.uri)
        &&& field_decodes::<usize>(json, "total_episodes"@, value.total_episodes)
    }

    open spec fn defect(json: JsonValue) -> Option<DecodeError> {
        if list_defect::<Market>(json, "available_markets"@) is Some {
            list_defect::<Market>(json, "available_markets"@)
        } else if field_defect::<Vec<Copyright>>(json, "copyrights"@) is Some {
            field_defect::<Vec<Copyright>>(json, "copyrights"@)
        } else if field_defect::<String>(json, "description"@) is Some {
            field_defect::<String>(json, "description"@)
        } else if field_defect::<String>(json, "html_description"@) is Some {
            field_defect::<String>(json, "html_description"@)
        } else if field_defect::<bool>(json, "explicit"@) is Some {
            field_defect::<bool>(json, "explicit"@)
        } else if field_defect::<ExternalUrls>(json, "external_urls"@) is Some {
            field_defect::<ExternalUrls>(json, "external_urls"@)
        } else if field_defect::<String>(json, "href"@) is Some {
            field_defect::<String>(json, "href"@)
        } else if field_defect::<String>(json, "id"@) is Some {
            field_defect::<String>(json, "id"@)
        } else if field_defect::<Vec<Image>>(json, "images"@) is Some {
            field_defect::<Vec<Image>>(json, "images"@)
        } else if field_defect::<bool>(json, "is_externally_hosted"@) is Some {
            field_defect::<bool>(json, "is_externally_hosted"@)
        } else if field_defect::<Vec<String>>(json, "languages"@) is Some {
            field_defect::<Vec<String>>(json, "languages"@)
        } else if field_defect::<String>(json, "media_type"@) is Some {
            field_defect::<String>(json, "media_type"@)
        } else if field_defect::<String>(json, "name"@) is Some {
            field_defect::<String>(json, "name"@)
        } else if field_defect::<String>(json, "publisher"@) is Some {
            field_defect::<String>(json, "publisher"@)
        } else if field_defect::<ItemType>(json, "type"@) is Some {
            field_defect::<ItemType>(json, "type"@)
        } else if field_defect::<String>(json, "uri"@) is Some {
            field_defect::<String>(json, "uri"@)
        } else {
            field_defect::<usize>(json, "total_episodes"@)
        }
    }

    open spec fn spec_target() -> Seq<char> {
        "SimplifiedShow"@
    }

    fn target() -> (r: &'static str) {
        "SimplifiedShow"
    }

    fn from_json(json: &Json) -> (r: Result<Self, DecodeError>) {
        let available_markets = list::<Market>(json, "available_markets")?;
        let copyrights = field::<Vec<Copyright>>(json, "copyrights")?;
        let description = field::<String>(json, "description")?;
        let html_description = field::<String>(json, "html_description")?;
        let explicit = field::<bool>(json, "explicit")?;
        let external_urls = field::<ExternalUrls>(json, "external_urls")?;
        let href = field::<String>(json, "href")?;
        let id = field::<String>(json, "id")?;
        let images = field::<Vec<Image>>(json, "images")?;
        let is_externally_hosted = field::<bool>(json, "is_externally_hosted")?;
        let languages = field::<Vec<String>>(json, "languages")?;
        let media_type = field::<String>(json, "media_type")?;
        let name = field::<String>(json, "name")?;
        let publisher = field::<String>(json, "publisher")?;
        let type_ = field::<ItemType>(json, "type")?;
        let uri = field::<String>(json, "uri")?;
        let total_episodes = field::<usize>(json, "total_episodes")?;
        Ok(SimplifiedShow { available_markets, copyrights, description, html_description, explicit, external_urls, href, id, images, is_externally_hosted, languages, media_type, name, publisher, type_, uri, total_episodes })
    }
}

impl vstd::std_specs::convert::FromSpecImpl<Show> for SimplifiedShow {
    open spec fn obeys_from_spec() -> bool {
        true
    }

    open spec fn from_spec(show: Show) -> Self {
        SimplifiedShow {
            available_markets: show.available_markets,
            copyrights: show.copyrights,
            description: show.description,
            html_description: show.html_description,
            explicit: show.explicit,
            external_urls: show.external_urls,
            href: show.href,
            id: show.id,
            images: show.images,
            is_externally_hosted: show.is_externally_hosted,
            languages: show.languages,
            media_type: show.media_type,
            name: show.name,
            publisher: show.publisher,
            type_: show.type_,
            uri: show.uri,
            total_episodes: show.total_episodes,
        }
    }
}

impl From<Show> for SimplifiedShow {
    fn from(show: Show) -> (r: Self) {
        SimplifiedShow {
            available_markets: show.available_markets,
            copyrights: show.copyrights,
            description: show.description,
            html_description: show.html_description,
            explicit: show.explicit,
            external_urls: show.external_urls,
            href: show.href,
            id: show.id,
            images: show.images,
            is_externally_hosted: show.is_externally_hosted,
            languages: show.languages,
            media_type: show.media_type,
            name: show.name,
            publisher: show.publisher,
            type_: show.type_,
            uri: show.uri,
            total_episodes: show.total_episodes,
        }
    }
}

/// A show saved to the current user's library.
///
/// Contains the timestamp when the show was saved and the show details.
#[derive(Debug, Clone, PartialEq, Eq)]
pub struct SavedShow {
    /// The date and time the show was saved. Timestamps are returned in ISO 8601 format as Coordinated Universal Time (UTC)
    /// with a zero offset: YYYY-MM-DDTHH:MM:SSZ. If the time is imprecise (for example, the date/time of an album release),
    /// an additional field indicates the precision; see for example, `release_date` in an album object.
    pub added_at: String,
    /// Information about the show.
    pub show: SimplifiedShow,
}

impl FromJson for SavedShow {
    open spec fn decodes(json: JsonValue, value: Self) -> bool {
        &&& field_decodes::<String>(json, "added_at"@, value.added_at)
        &&& field_decodes::<SimplifiedShow>(json, "show"@, value.show)
    }

    open spec fn defect(json: JsonValue) -> Option<DecodeError> {
        if field_defect::<String>(json, "added_at"@) is Some {
            field_defect::<String>(json, "added_at"@)
        } else {
            field_defect::<SimplifiedShow>(json, "show"@)
        }
    }

    open spec fn spec_target() -> Seq<char> {
        "SavedShow"@
    }

    fn target() -> (r: &'static str) {
        "SavedShow"
    }

    fn from_json(json: &Json) -> (r: Result<Self, DecodeError>) {
        let added_at = field::<String>(json, "added_at")?;
        let show = field::<SimplifiedShow>(json, "show")?;
        Ok(SavedShow { added_at, show })
    }
}

/// Spotify catalog information for several shows.
#[derive(Debug, Clone, PartialEq, Eq)]
pub struct Shows {
    pub shows: Vec<SimplifiedShow>,
}

impl FromJson for Shows {
    open spec fn decodes(json: JsonValue, value: Self) -> bool {
        &&& field_decodes::<Vec<SimplifiedShow>>(json, "shows"@, value.shows)
    }

    open spec fn defect(json: JsonValue) -> Option<DecodeError> {
        field_defect::<Vec<SimplifiedShow>>(json, "shows"@)
    }

    open spec fn spec_target() -> Seq<char> {
        "Shows"@
    }

    fn target() -> (r: &'static str) {
        "Shows"
    }

    fn from_json(json: &Json) -> (r: Result<Self, DecodeError>) {
        let shows = field::<Vec<SimplifiedShow>>(json, "shows")?;
        Ok(Shows { shows })
    }
}

} // verus!
