//! Search results.

use vstd::prelude::*;
use vstd::string::*;
use crate::api::error::DecodeError;
use crate::decode::{field, field_decodes, field_defect, FromJson};
use crate::json::{lemma_json_view, Json, JsonValue};
use crate::text::str_eq;
use crate::model::albums::Album;
use crate::model::albums::SimplifiedAlbum;
use crate::model::artists::Artist;
use crate::model::audiobooks::Audiobook;
use crate::model::audiobooks::SimplifiedAudiobook;
use crate::model::episodes::Episode;
use crate::model::episodes::SimplifiedEpisode;
use crate::model::misc::Page;
use crate::model::playlists::Playlist;
use crate::model::playlists::SimplifiedPlaylist;
use crate::model::shows::Show;
use crate::model::shows::SimplifiedShow;
use crate::model::tracks::Track;

verus! {

/// Spotify catalog information about albums, artists, playlists, tracks, shows, episodes or audiobooks.
///
/// Contains paginated results for each type of item that was searched for.
/// Only the types requested in the search will have values; others will be `None`.
#[derive(Debug, Clone, PartialEq, Eq)]
pub struct SearchResults {
    /// Matching playlists, if playlists were included in the search.
    pub playlists: Option<Page<Option<SimplifiedPlaylist>>>,
    /// Matching albums, if albums were included in the search.
    pub albums: Option<Page<Option<SimplifiedAlbum>>>,
    /// Matching artists, if artists were included in the search.
    pub artists: Option<Page<Option<Artist>>>,
    /// Matching tracks, if tracks were included in the search.
    pub tracks: Option<Page<Option<Track>>>,
    /// Matching shows (podcasts), if shows were included in the search.
    pub shows: Option<Page<Option<SimplifiedShow>>>,
    /// Matching episodes, if episodes were included in the search.
    pub episodes: Option<Page<Option<SimplifiedEpisode>>>,
    /// Matching audiobooks, if audiobooks were included in the search.
    pub audiobooks: Option<Page<Option<SimplifiedAudiobook>>>,
}

impl FromJson for SearchResults {
    open spec fn decodes(json: JsonValue, value: Self) -> bool {
        &&& field_decodes::<Option<Page<Option<SimplifiedPlaylist>>>>(json, "playlists"@, value.playlists)
        &&& field_decodes::<Option<Page<Option<SimplifiedAlbum>>>>(json, "albums"@, value.albums)
        &&& field_decodes::<Option<Page<Option<Artist>>>>(json, "artists"@, value.artists)
        &&& field_decodes::<Option<Page<Option<Track>>>>(json, "tracks"@, value.tracks)
        &&& field_decodes::<Option<Page<Option<SimplifiedShow>>>>(json, "shows"@, value.shows)
        &&& field_decodes::<Option<Page<Option<SimplifiedEpisode>>>>(json, "episodes"@, value.episodes)
        &&& field_decodes::<Option<Page<Option<SimplifiedAudiobook>>>>(json, "audiobooks"@, value.audiobooks)
    }

    open spec fn defect(json: JsonValue) -> Option<DecodeError> {
        if field_defect::<Option<Page<Option<SimplifiedPlaylist>>>>(json, "playlists"@) is Some {
            field_defect::<Option<Page<Option<SimplifiedPlaylist>>>>(json, "playlists"@)
        } else if field_defect::<Option<Page<Option<SimplifiedAlbum>>>>(json, "albums"@) is Some {
            field_defect::<Option<Page<Option<SimplifiedAlbum>>>>(json, "albums"@)
        } else if field_defect::<Option<Page<Option<Artist>>>>(json, "artists"@) is Some {
            field_defect::<Option<Page<Option<Artist>>>>(json, "artists"@)
        } else if field_defect::<Option<Page<Option<Track>>>>(json, "tracks"@) is Some {
            field_defect::<Option<Page<Option<Track>>>>(json, "tracks"@)
        } else if field_defect::<Option<Page<Option<SimplifiedShow>>>>(json, "shows"@) is Some {
            field_defect::<Option<Page<Option<SimplifiedShow>>>>(json, "shows"@)
        } else if field_defect::<Option<Page<Option<SimplifiedEpisode>>>>(json, "episodes"@) is Some {
            field_defect::<Option<Page<Option<SimplifiedEpisode>>>>(json, "episodes"@)
        } else {
            field_defect::<Option<Page<Option<SimplifiedAudiobook>>>>(json, "audiobooks"@)
        }
    }

    open spec fn spec_target() -> Seq<char> {
        "SearchResults"@
    }

    fn target() -> (r: &'static str) {
        "SearchResults"
    }

    fn from_json(json: &Json) -> (r: Result<Self, DecodeError>) {
        let playlists = field::<Option<Page<Option<SimplifiedPlaylist>>>>(json, "playlists")?;
        let albums = field::<Option<Page<Option<SimplifiedAlbum>>>>(json, "albums")?;
        let artists = field::<Option<Page<Option<Artist>>>>(json, "artists")?;
        let tracks = field::<Option<Page<Option<Track>>>>(json, "tracks")?;
        let shows = field::<Option<Page<Option<SimplifiedShow>>>>(json, "shows")?;
        let episodes = field::<Option<Page<Option<SimplifiedEpisode>>>>(json, "episodes")?;
        let audiobooks = field::<Option<Page<Option<SimplifiedAudiobook>>>>(json, "audiobooks")?;
        Ok(SearchResults { playlists, albums, artists, tracks, shows, episodes, audiobooks })
    }
}

/// The type of item to search for in the Spotify catalog.
///
/// Used with the search endpoint to specify which types of items to include
/// in the search results.
#[derive(Debug, Clone, Copy, PartialEq, Eq, Structural)]
pub enum SearchType {
    Album,
    Artist,
    Playlist,
    Track,
    Show,
    Episode,
    Audiobook,
}

impl SearchType {
    /// The value that the service writes as `text`.
    pub open spec fn named(text: Seq<char>) -> Option<Self> {
        if text == "album"@ {
            Some(SearchType::Album)
        }         else if text == "artist"@ {
            Some(SearchType::Artist)
        }         else if text == "playlist"@ {
            Some(SearchType::Playlist)
        }         else if text == "track"@ {
            Some(SearchType::Track)
        }         else if text == "show"@ {
            Some(SearchType::Show)
        }         else if text == "episode"@ {
            Some(SearchType::Episode)
        }         else if text == "audiobook"@ {
            Some(SearchType::Audiobook)
        } else {
            None
        }
    }

    /// The value that the service writes as `text`.
    pub fn from_name(text: &str) -> (r: Option<Self>)
        ensures
            r == Self::named(text@),
    {
        if str_eq(text, "album") {
            Some(SearchType::Album)
        }         else if str_eq(text, "artist") {
            Some(SearchType::Artist)
        }         else if str_eq(text, "playlist") {
            Some(SearchType::Playlist)
        }         else if str_eq(text, "track") {
            Some(SearchType::Track)
        }         else if str_eq(text, "show") {
            Some(SearchType::Show)
        }         else if str_eq(text, "episode") {
            Some(SearchType::Episode)
        }         else if str_eq(text, "audiobook") {
            Some(SearchType::Audiobook)
        } else {
            None
        }
    }
}

impl FromJson for SearchType {
    open spec fn decodes(json: JsonValue, value: Self) -> bool {
        json matches JsonValue::Str(text) && Self::named(text) == Some(value)
    }

    open spec fn defect(json: JsonValue) -> Option<DecodeError> {
        match json {
            JsonValue::Str(text) => if Self::named(text) is Some {
                None
            } else {
                Some(DecodeError::UnknownVariant)
            },
            _ => Some(DecodeError::ExpectedString),
        }
    }

    open spec fn spec_target() -> Seq<char> {
        "SearchType"@
    }

    fn target() -> (r: &'static str) {
        "SearchType"
    }

    fn from_json(json: &Json) -> (r: Result<Self, DecodeError>) {
        proof {
            lemma_json_view(*json);
        }
        match json {
            Json::Str(text) => match Self::from_name(text.as_str()) {
                Some(value) => Ok(value),
                None => Err(DecodeError::UnknownVariant),
            },
            _ => Err(DecodeError::ExpectedString),
        }
    }
}

impl SearchType {
    /// The text that this value is displayed as.
    pub open spec fn spec_text(&self) -> Seq<char> {
        match self {
            SearchType::Album => "album"@,
            SearchType::Artist => "artist"@,
            SearchType::Playlist => "playlist"@,
            SearchType::Track => "track"@,
            SearchType::Show => "show"@,
            SearchType::Episode => "episode"@,
            SearchType::Audiobook => "audiobook"@,
        }
    }

    /// The text that this value is displayed as.
    pub fn as_str(&self) -> (r: &'static str)
        ensures
            r@ == self.spec_text(),
    {
        match self {
            SearchType::Album => "album",
            SearchType::Artist => "artist",
            SearchType::Playlist => "playlist",
            SearchType::Track => "track",
            SearchType::Show => "show",
            SearchType::Episode => "episode",
            SearchType::Audiobook => "audiobook",
        }
    }

    /// The text that this value is displayed as.
    pub fn to_string(&self) -> (r: String)
        ensures
            r@ == self.spec_text(),
    {
        String::from_str(self.as_str())
    }
}

impl SearchType {
    /// Every search type, in the order of their declaration.
    pub fn all() -> (r: Vec<Self>)
        ensures
            r@ == seq![
                SearchType::Album,
                SearchType::Artist,
                SearchType::Playlist,
                SearchType::Track,
                SearchType::Show,
                SearchType::Episode,
                SearchType::Audiobook,
            ],
    {
        vec![
            SearchType::Album,
            SearchType::Artist,
            SearchType::Playlist,
            SearchType::Track,
            SearchType::Show,
            SearchType::Episode,
            SearchType::Audiobook,
        ]
    }
}

} // verus!
