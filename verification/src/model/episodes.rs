//! Episodes of shows.

use vstd::prelude::*;
use vstd::string::*;
use crate::api::error::DecodeError;
use crate::decode::{field, field_decodes, field_defect, FromJson};
use crate::json::{Json, JsonValue};
use crate::model::misc::ExternalUrls;
use crate::model::misc::Image;
use crate::model::misc::ItemType;
use crate::model::misc::ReleaseDatePrecision;
use crate::model::misc::Restrictions;
use crate::model::misc::ResumePoint;
use crate::model::shows::SimplifiedShow;

verus! {

/// Full episode (podcast episode) information from the Spotify catalog.
///
/// Contains complete details about an episode including its parent show,
/// release date, duration, and playback resume point.
#[derive(Debug, Clone, PartialEq, Eq)]
pub struct Episode {
    /// A description of the episode. HTML tags are stripped away from this field,
    /// use `html_description` field in case HTML tags are needed.
    pub description: String,
    /// A description of the episode. This field may contain HTML tags.
    pub html_description: String,
    /// The episode length in milliseconds.
    pub duration_ms: u32,
    /// Whether or not the episode has explicit content (true = yes it does; false = no it does not OR unknown).
    pub explicit: bool,
    /// External URLs for this episode.
    pub external_urls: ExternalUrls,
    /// A link to the Web API endpoint providing full details of the episode.
    pub href: String,
    /// The [Spotify ID](https://developer.spotify.com/documentation/web-api/concepts/spotify-uris-ids) for the episode.
    pub id: String,
    /// The cover art for the episode in various sizes, widest first.
    pub images: Vec<Image>,
    /// True if the episode is hosted outside of Spotify's CDN.
    pub is_externally_hosted: bool,
    /// True if the episode is playable in the given market. Otherwise false.
    pub is_playable: bool,
    /// A list of the languages used in the episode, identified by their [ISO 639-1](https://en.wikipedia.org/wiki/ISO_639) code.
    pub languages: Vec<String>,
    /// The name of the episode.
    pub name: String,
    /// The date the episode was first released, for example "1981-12-15".
    /// Depending on the precision, it might be shown as "1981" or "1981-12".
    pub release_date: String,
    /// The precision with which `release_date` value is known.
    pub release_date_precision: ReleaseDatePrecision,
    /// The user's most recent position in the episode.
    /// Set if the supplied access token is a user token and has the scope 'user-read-playback-position'.
    pub resume_point: Option<ResumePoint>,
    /// The object type.
    ///
    /// Allowed values: "episode"
    pub type_: ItemType,
    /// The [Spotify URI](https://developer.spotify.com/documentation/web-api/concepts/spotify-uris-ids) for the episode.
    pub uri: String,
    /// Included in the response when a content restriction is applied.
    pub restrictions: Option<Restrictions>,
    /// The show on which the episode belongs.
    pub show: SimplifiedShow,
}

impl FromJson for Episode {
    open spec fn decodes(json: JsonValue, value: Self) -> bool {
        &&& field_decodes::<String>(json, "description"@, value.description)
        &&& field_decodes::<String>(json, "html_description"@, value.html_description)
        &&& field_decodes::<u32>(json, "duration_ms"@, value.duration_ms)
        &&& field_decodes::<bool>(json, "explicit"@, value.explicit)
        &&& field_decodes::<ExternalUrls>(json, "external_urls"@, value.external_urls)
        &&& field_decodes::<String>(json, "href"@, value.href)
        &&& field_decodes::<String>(json, "id"@, value.id)
        &&& field_decodes::<Vec<Image>>(json, "images"@, value.images)
        &&& field_decodes::<bool>(json, "is_externally_hosted"@, value.is_externally_hosted)
        &&& field_decodes::<bool>(json, "is_playable"@, value.is_playable)
        &&& field_decodes::<Vec<String>>(json, "languages"@, value.languages)
        &&& field_decodes::<String>(json, "name"@, value.name)
        &&& field_decodes::<String>(json, "release_date"@, value.release_date)
        &&& field_decodes::<ReleaseDatePrecision>(json, "release_date_precision"@, value.release_date_precision)
        &&& field_decodes::<Option<ResumePoint>>(json, "resume_point"@, value.resume_point)
        &&& field_decodes::<ItemType>(json, "type"@, value.type_)
        &&& field_decodes::<String>(json, "uri"@, value.uri)
        &&& field_decodes::<Option<Restrictions>>(json, "restrictions"@, value.restrictions)
        &&& field_decodes::<SimplifiedShow>(json, "show"@, value.show)
    }

    open spec fn defect(json: JsonValue) -> Option<DecodeError> {
        if field_defect::<String>(json, "description"@) is Some {
            field_defect::<String>(json, "description"@)
        } else if field_defect::<String>(json, "html_description"@) is Some {
            field_defect::<String>(json, "html_description"@)
        } else if field_defect::<u32>(json, "duration_ms"@) is Some {
            field_defect::<u32>(json, "duration_ms"@)
        } else if field_defect::<bool>(json, "explicit"@) is Some {
            field_defect::<bool>(json, "explicit"@)
        } else if field_defect::<ExternalUrls>(json, "external_urls"@) is Some {
            field_defect::<ExternalUrls>(json, "external_urls"@)
        } else if field_defect::<String>(json, "href"@) is Some {
            field_defect::<String>(json, "href"@)
        } else if field_defect::<String>(json, "id"@) is Some {
            field_defect::<String>(json, "id"@)
        } else if field_defect::<Vec<Image>>(json, "images"@) is Some {
            field_defect::<Vec<Image>>(json, "images"@)
        } else if field_defect::<bool>(json, "is_externally_hosted"@) is Some {
            field_defect::<bool>(json, "is_externally_hosted"@)
        } else if field_defect::<bool>(json, "is_playable"@) is Some {
            field_defect::<bool>(json, "is_playable"@)
        } else if field_defect::<Vec<String>>(json, "languages"@) is Some {
            field_defect::<Vec<String>>(json, "languages"@)
        } else if field_defect::<String>(json, "name"@) is Some {
            field_defect::<String>(json, "name"@)
        } else if field_defect::<String>(json, "release_date"@) is Some {
            field_defect::<String>(json, "release_date"@)
        } else if field_defect::<ReleaseDatePrecision>(json, "release_date_precision"@) is Some {
            field_defect::<ReleaseDatePrecision>(json, "release_date_precision"@)
        } else if field_defect::<Option<ResumePoint>>(json, "resume_point"@) is Some {
            field_defect::<Option<ResumePoint>>(json, "resume_point"@)
        } else if field_defect::<ItemType>(json, "type"@) is Some {
            field_defect::<ItemType>(json, "type"@)
        } else if field_defect::<String>(json, "uri"@) is Some {
            field_defect::<String>(json, "uri"@)
        } else if field_defect::<Option<Restrictions>>(json, "restrictions"@) is Some {
            field_defect::<Option<Restrictions>>(json, "restrictions"@)
        } else {
            field_defect::<SimplifiedShow>(json, "show"@)
        }
    }

    open spec fn spec_target() -> Seq<char> {
        "Episode"@
    }

    fn target() -> (r: &'static str) {
        "Episode"
    }

    fn from_json(json: &Json) -> (r: Result<Self, DecodeError>) {
        let description = field::<String>(json, "description")?;
        let html_description = field::<String>(json, "html_description")?;
        let duration_ms = field::<u32>(json, "duration_ms")?;
        let explicit = field::<bool>(json, "explicit")?;
        let external_urls = field::<ExternalUrls>(json, "external_urls")?;
        let href = field::<String>(json, "href")?;
        let id = field::<String>(json, "id")?;
        let images = field::<Vec<Image>>(json, "images")?;
        let is_externally_hosted = field::<bool>(json, "is_externally_hosted")?;
        let is_playable = field::<bool>(json, "is_playable")?;
        let languages = field::<Vec<String>>(json, "languages")?;
        let name = field::<String>(json, "name")?;
        let release_date = field::<String>(json, "release_date")?;
        let release_date_precision = field::<ReleaseDatePrecision>(json, "release_date_precision")?;
        let resume_point = field::<Option<ResumePoint>>(json, "resume_point")?;
        let type_ = field::<ItemType>(json, "type")?;
        let uri = field::<String>(json, "uri")?;
        let restrictions = field::<Option<Restrictions>>(json, "restrictions")?;
        let show = field::<SimplifiedShow>(json, "show")?;
        Ok(Episode { description, html_description, duration_ms, explicit, external_urls, href, id, images, is_externally_hosted, is_playable, languages, name, release_date, release_date_precision, resume_point, type_, uri, restrictions, show })
    }
}

/// Simplified episode information with basic details only.
///
/// A lighter version of [`Episode`] that omits the parent show.
/// Commonly returned when episodes are nested within other objects.
#[derive(Debug, Clone, PartialEq, Eq)]
pub struct SimplifiedEpisode {
    /// A description of the episode. HTML tags are stripped away from this field,
    /// use `html_description` field in case HTML tags are needed.
    pub description: String,
    /// A description of the episode. This field may contain HTML tags.
    pub html_description: String,
    /// The episode length in milliseconds.
    pub duration_ms: u32,
    /// Whether or not the episode has explicit content (true = yes it does; false = no it does not OR unknown).
    pub explicit: bool,
    /// External URLs for this episode.
    pub external_urls: ExternalUrls,
    /// A link to the Web API endpoint providing full details of the episode.
    pub href: String,
    /// The [Spotify ID](https://developer.spotify.com/documentation/web-api/concepts/spotify-uris-ids) for the episode.
    pub id: String,
    /// The cover art for the episode in various sizes, widest first.
    pub images: Vec<Image>,
    /// True if the episode is hosted outside of Spotify's CDN.
    pub is_externally_hosted: bool,
    /// True if the episode is playable in the given market. Otherwise false.
    pub is_playable: bool,
    /// A list of the languages used in the episode, identified by their [ISO 639-1](https://en.wikipedia.org/wiki/ISO_639) code.
    pub languages: Vec<String>,
    /// The name of the episode.
    pub name: String,
    /// The date the episode was first released, for example "1981-12-15".
    /// Depending on the precision, it might be shown as "1981" or "1981-12".
    pub release_date: String,
    /// The precision with which `release_date` value is known.
    pub release_date_precision: ReleaseDatePrecision,
    /// The user's most recent position in the episode.
    /// Set if the supplied access token is a user token and has the scope 'user-read-playback-position'.
    pub resume_point: Option<ResumePoint>,
    /// The object type.
    ///
    /// Allowed values: "episode"
    pub type_: ItemType,
    /// The [Spotify URI](https://developer.spotify.com/documentation/web-api/concepts/spotify-uris-ids) for the episode.
    pub uri: String,
    /// Included in the response when a content restriction is applied.
    pub restrictions: Option<Restrictions>,
}

impl FromJson for SimplifiedEpisode {
    open spec fn decodes(json: JsonValue, value: Self) -> bool {
        &&& field_decodes::<String>(json, "description"@, value.description)
        &&& field_decodes::<String>(json, "html_description"@, value.html_description)
        &&& field_decodes::<u32>(json, "duration_ms"@, value.duration_ms)
        &&& field_decodes::<bool>(json, "explicit"@, value.explicit)
        &&& field_decodes::<ExternalUrls>(json, "external_urls"@, value.external_urls)
        &&& field_decodes::<String>(json, "href"@, value.href)
        &&& field_decodes::<String>(json, "id"@, value.id)
        &&& field_decodes::<Vec<Image>>(json, "images"@, value.images)
        &&& field_decodes::<bool>(json, "is_externally_hosted"@, value.is_externally_hosted)
        &&& field_decodes::<bool>(json, "is_playable"@, value.is_playable)
        &&& field_decodes::<Vec<String>>(json, "languages"@, value.languages)
        &&& field_decodes::<String>(json, "name"@, value.name)
        &&& field_decodes::<String>(json, "release_date"@, value.release_date)
        &&& field_decodes::<ReleaseDatePrecision>(json, "release_date_precision"@, value.release_date_precision)
        &&& field_decodes::<Option<ResumePoint>>(json, "resume_point"@, value.resume_point)
        &&& field_decodes::<ItemType>(json, "type"@, value.type_)
        &&& field_decodes::<String>(json, "uri"@, value.uri)
        &&& field_decodes::<Option<Restrictions>>(json, "restrictions"@, value.restrictions)
    }

    open spec fn defect(json: JsonValue) -> Option<DecodeError> {
        if field_defect::<String>(json, "description"@) is Some {
            field_defect::<String>(json, "description"@)
        } else if field_defect::<String>(json, "html_description"@) is Some {
            field_defect::<String>(json, "html_description"@)
        } else if field_defect::<u32>(json, "duration_ms"@) is Some {
            field_defect::<u32>(json, "duration_ms"@)
        } else if field_defect::<bool>(json, "explicit"@) is Some {
            field_defect::<bool>(json, "explicit"@)
        } else if field_defect::<ExternalUrls>(json, "external_urls"@) is Some {
            field_defect::<ExternalUrls>(json, "external_urls"@)
        } else if field_defect::<String>(json, "href"@) is Some {
            field_defect::<String>(json, "href"@)
        } else if field_defect::<String>(json, "id"@) is Some {
            field_defect::<String>(json, "id"@)
        } else if field_defect::<Vec<Image>>(json, "images"@) is Some {
            field_defect::<Vec<Image>>(json, "images"@)
        } else if field_defect::<bool>(json, "is_externally_hosted"@) is Some {
            field_defect::<bool>(json, "is_externally_hosted"@)
        } else if field_defect::<bool>(json, "is_playable"@) is Some {
            field_defect::<bool>(json, "is_playable"@)
        } else if field_defect::<Vec<String>>(json, "languages"@) is Some {
            field_defect::<Vec<String>>(json, "languages"@)
        } else if field_defect::<String>(json, "name"@) is Some {
            field_defect::<String>(json, "name"@)
        } else if field_defect::<String>(json, "release_date"@) is Some {
            field_defect::<String>(json, "release_date"@)
        } else if field_defect::<ReleaseDatePrecision>(json, "release_date_precision"@) is Some {
            field_defect::<ReleaseDatePrecision>(json, "release_date_precision"@)
        } else if field_defect::<Option<ResumePoint>>(json, "resume_point"@) is Some {
            field_defect::<Option<ResumePoint>>(json, "resume_point"@)
        } else if field_defect::<ItemType>(json, "type"@) is Some {
            field_defect::<ItemType>(json, "type"@)
        } else if field_defect::<String>(json, "uri"@) is Some {
            field_defect::<String>(json, "uri"@)
        } else {
            field_defect::<Option<Restrictions>>(json, "restrictions"@)
        }
    }

    open spec fn spec_target() -> Seq<char> {
        "SimplifiedEpisode"@
    }

    fn target() -> (r: &'static str) {
        "SimplifiedEpisode"
    }

    fn from_json(json: &Json) -> (r: Result<Self, DecodeError>) {
        let description = field::<String>(json, "description")?;
        let html_description = field::<String>(json, "html_description")?;
        let duration_ms = field::<u32>(json, "duration_ms")?;
        let explicit = field::<bool>(json, "explicit")?;
        let external_urls = field::<ExternalUrls>(json, "external_urls")?;
        let href = field::<String>(json, "href")?;
        let id = field::<String>(json, "id")?;
        let images = field::<Vec<Image>>(json, "images")?;
        let is_externally_hosted = field::<bool>(json, "is_externally_hosted")?;
        let is_playable = field::<bool>(json, "is_playable")?;
        let languages = field::<Vec<String>>(json, "languages")?;
        let name = field::<String>(json, "name")?;
        let release_date = field::<String>(json, "release_date")?;
        let release_date_precision = field::<ReleaseDatePrecision>(json, "release_date_precision")?;
        let resume_point = field::<Option<ResumePoint>>(json, "resume_point")?;
        let type_ = field::<ItemType>(json, "type")?;
        let uri = field::<String>(json, "uri")?;
        let restrictions = field::<Option<Restrictions>>(json, "restrictions")?;
        Ok(SimplifiedEpisode { description, html_description, duration_ms, explicit, external_urls, href, id, images, is_externally_hosted, is_playable, languages, name, release_date, release_date_precision, resume_point, type_, uri, restrictions })
    }
}

impl vstd::std_specs::convert::FromSpecImpl<Episode> for SimplifiedEpisode {
    open spec fn obeys_from_spec() -> bool {
        true
    }

    open spec fn from_spec(episode: Episode) -> Self {
        SimplifiedEpisode {
            description: episode.description,
            html_description: episode.html_description,
            duration_ms: episode.duration_ms,
            explicit: episode.explicit,
            external_urls: episode.external_urls,
            href: episode.href,
            id: episode.id,
            images: episode.images,
            is_externally_hosted: episode.is_externally_hosted,
            is_playable: episode.is_playable,
            languages: episode.languages,
            name: episode.name,
            release_date: episode.release_date,
            release_date_precision: episode.release_date_precision,
            resume_point: episode.resume_point,
            type_: episode.type_,
            uri: episode.uri,
            restrictions: episode.restrictions,
        }
    }
}

impl From<Episode> for SimplifiedEpisode {
    fn from(episode: Episode) -> (r: Self) {
        SimplifiedEpisode {
            description: episode.description,
            html_description: episode.html_description,
            duration_ms: episode.duration_ms,
            explicit: episode.explicit,
            external_urls: episode.external_urls,
            href: episode.href,
            id: episode.id,
            images: episode.images,
            is_externally_hosted: episode.is_externally_hosted,
            is_playable: episode.is_playable,
            languages: episode.languages,
            name: episode.name,
            release_date: episode.release_date,
            release_date_precision: episode.release_date_precision,
            resume_point: episode.resume_point,
            type_: episode.type_,
            uri: episode.uri,
            restrictions: episode.restrictions,
        }
    }
}

/// Spotify catalog information for several episodes.
#[derive(Debug, Clone, PartialEq, Eq)]
pub struct Episodes {
    pub episodes: Vec<Option<Episode>>,
}

impl FromJson for Episodes {
    open spec fn decodes(json: JsonValue, value: Self) -> bool {
        &&& field_decodes::<Vec<Option<Episode>>>(json, "episodes"@, value.episodes)
    }

    open spec fn defect(json: JsonValue) -> Option<DecodeError> {
        field_defect::<Vec<Option<Episode>>>(json, "episodes"@)
    }

    open spec fn spec_target() -> Seq<char> {
        "Episodes"@
    }

    fn target() -> (r: &'static str) {
        "Episodes"
    }

    fn from_json(json: &Json) -> (r: Result<Self, DecodeError>) {
        let episodes = field::<Vec<Option<Episode>>>(json, "episodes")?;
        Ok(Episodes { episodes })
    }
}

/// An episode saved to the current user's library.
///
/// Contains the timestamp when the episode was saved and the episode details.
#[derive(Debug, Clone, PartialEq, Eq)]
pub struct SavedEpisode {
    /// The date and time the episode was saved.
    /// Timestamps are returned in ISO 8601 format as Coordinated Universal Time (UTC) with a zero offset: YYYY-MM-DDTHH:MM:SSZ.
    pub added_at: String,
    /// Information about the episode.
    pub episode: Episode,
}

impl FromJson for SavedEpisode {
    open spec fn decodes(json: JsonValue, value: Self) -> bool {
        &&& field_decodes::<String>(json, "added_at"@, value.added_at)
        &&& field_decodes::<Episode>(json, "episode"@, value.episode)
    }

    open spec fn defect(json: JsonValue) -> Option<DecodeError> {
        if field_defect::<String>(json, "added_at"@) is Some {
            field_defect::<String>(json, "added_at"@)
        } else {
            field_defect::<Episode>(json, "episode"@)
        }
    }

    open spec fn spec_target() -> Seq<char> {
        "SavedEpisode"@
    }

    fn target() -> (r: &'static str) {
        "SavedEpisode"
    }

    fn from_json(json: &Json) -> (r: Result<Self, DecodeError>) {
        let added_at = field::<String>(json, "added_at")?;
        let episode = field::<Episode>(json, "episode")?;
        Ok(SavedEpisode { added_at, episode })
    }
}

} // verus!
