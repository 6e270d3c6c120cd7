//! Identifiers of Spotify resources.

use vstd::prelude::*;
use vstd::string::*;
use vstd::utf8::*;
use crate::text::{concat, strip_prefix, stripped, usize_to_string};

verus! {

/// Errors that can occur when parsing or validating Spotify IDs.
#[derive(Debug, Clone, Copy, PartialEq, Eq, Structural)]
pub enum IdError {
    /// The ID holds a character that is no letter and no digit, or a URI
    /// does not begin as the URIs of its resource do.
    InvalidFormat,
    /// The ID is not of the length that IDs have.
    InvalidLength { got: usize, expected: usize },
}

impl IdError {
    /// A description of the error for people.
    pub fn to_string(&self) -> (r: String)
        ensures
            *self is InvalidFormat ==> r@ == "The ID is not in correct format."@,
            *self matches IdError::InvalidLength { got, expected } ==> r@
                == "The ID is not the correct length. Got "@ + crate::text::decimal(got as nat)
                + ", expected "@ + crate::text::decimal(expected as nat) + "."@,
    {
        match self {
            IdError::InvalidFormat => String::from_str("The ID is not in correct format."),
            IdError::InvalidLength { got, expected } => {
                let mut out = String::from_str("The ID is not the correct length. Got ");
                out.append(usize_to_string(*got).as_str());
                out.append(", expected ");
                out.append(usize_to_string(*expected).as_str());
                out.append(".");
                out
            },
        }
    }
}

/// The type of a Spotify resource identified by an ID.
#[derive(Debug, Clone, Copy, PartialEq, Eq, Structural)]
pub enum IdType {
    User,
    Album,
    Artist,
    Playlist,
    Track,
    Show,
    Episode,
}

impl IdType {
    /// The name of the type as it stands in a URI.
    pub open spec fn spec_text(&self) -> Seq<char> {
        match self {
            IdType::User => "user"@,
            IdType::Album => "album"@,
            IdType::Artist => "artist"@,
            IdType::Playlist => "playlist"@,
            IdType::Track => "track"@,
            IdType::Show => "show"@,
            IdType::Episode => "episode"@,
        }
    }

    /// The name of the type as it stands in a URI.
    pub fn as_str(&self) -> (r: &'static str)
        ensures
            r@ == self.spec_text(),
    {
        match self {
            IdType::User => "user",
            IdType::Album => "album",
            IdType::Artist => "artist",
            IdType::Playlist => "playlist",
            IdType::Track => "track",
            IdType::Show => "show",
            IdType::Episode => "episode",
        }
    }

    /// The name of the type as it stands in a URI.
    pub fn to_string(&self) -> (r: String)
        ensures
            r@ == self.spec_text(),
    {
        String::from_str(self.as_str())
    }
}

/// The length of the ID of every resource but a user, in bytes.
pub const ID_LENGTH: usize = 22;

/// Whether `c` is a digit of a base-62 number: an ASCII letter or digit.
pub open spec fn is_base62_char(c: char) -> bool {
    ('0' <= c && c <= '9') || ('a' <= c && c <= 'z') || ('A' <= c && c <= 'Z')
}

/// Whether `text` holds digits of a base-62 number only.
pub open spec fn spec_is_base62(text: Seq<char>) -> bool {
    forall|i: int| 0 <= i < text.len() ==> is_base62_char(#[trigger] text[i])
}

/// Whether `s` holds ASCII letters and digits only.
pub fn is_base62(s: &str) -> (r: bool)
    ensures
        r == spec_is_base62(s@),
{
    if !s.is_ascii() {
        proof {
            let i = choose|i: int| 0 <= i < s@.len() && !('\0' <= #[trigger] s@[i] <= '\u{7f}');
            assert(!is_base62_char(s@[i]));
        }
        return false;
    }
    let n = s.unicode_len();
    let mut i: usize = 0;
    while i < n
        invariant
            n == s@.len(),
            i <= n,
            is_ascii(s),
            forall|k: int| 0 <= k < i ==> is_base62_char(#[trigger] s@[k]),
        decreases n - i,
    {
        let b = s.get_ascii(i);
        let fine = (48 <= b && b <= 57) || (97 <= b && b <= 122) || (65 <= b && b <= 90);
        proof {
            let c = s@[i as int];
            assert('\0' <= c <= '\u{7f}');
            assert(fine == is_base62_char(c)) by {
                assert(c as u8 == b);
                assert('0' as u8 == 48 && '9' as u8 == 57 && 'a' as u8 == 97 && 'z' as u8 == 122
                    && 'A' as u8 == 65 && 'Z' as u8 == 90);
            }
        }
        if !fine {
            return false;
        }
        i += 1;
    }
    true
}

/// What is wrong with `text` as the ID of a resource, or `None` where it
/// is well formed: 22 bytes, all of them ASCII letters and digits.
pub open spec fn id_defect(text: Seq<char>) -> Option<IdError> {
    let length = encode_utf8(text).len();
    if length != ID_LENGTH {
        Some(IdError::InvalidLength { got: length as usize, expected: ID_LENGTH })
    } else if !spec_is_base62(text) {
        Some(IdError::InvalidFormat)
    } else {
        None
    }
}

/// Checks that `id` is well formed as the ID of a resource.
pub fn check_id(id: &str) -> (r: Result<(), IdError>)
    ensures
        match r {
            Ok(()) => id_defect(id@) is None,
            Err(e) => id_defect(id@) == Some(e),
        },
{
    let length = id.as_bytes().len();
    if length != ID_LENGTH {
        Err(IdError::InvalidLength { got: length, expected: ID_LENGTH })
    } else if !is_base62(id) {
        Err(IdError::InvalidFormat)
    } else {
        Ok(())
    }
}

/// The URI of the resource of type `kind` with the ID `id`.
pub open spec fn uri_of(kind: IdType, id: Seq<char>) -> Seq<char> {
    "spotify:"@ + kind.spec_text() + ":"@ + id
}

/// The beginning of the URIs of the resources of type `kind`.
pub open spec fn uri_prefix(kind: IdType) -> Seq<char> {
    "spotify:"@ + kind.spec_text() + ":"@
}

/// What is left of a URI after the beginning of the URIs of its type is
/// the identifier: a URI parses back to the identifier that it was made of.
pub proof fn lemma_uri_parses_back(kind: IdType, id: Seq<char>)
    ensures
        stripped(uri_of(kind, id), uri_prefix(kind)) == Some(id),
{
    let prefix = uri_prefix(kind);
    let uri = uri_of(kind, id);
    assert(uri =~= prefix + id);
    assert(uri.subrange(0, prefix.len() as int) =~= prefix);
    assert(uri.skip(prefix.len() as int) =~= id);
}

fn prefix_of(kind: IdType) -> (r: String)
    ensures
        r@ == uri_prefix(kind),
{
    let mut out = concat("spotify:", kind.as_str());
    out.append(":");
    out
}

/// A validated Spotify playlist ID.
#[derive(Debug, PartialEq, Eq)]
pub struct PlaylistId(String);

impl Clone for PlaylistId {
    fn clone(&self) -> (r: Self)
        ensures
            r.spec_id() == self.spec_id(),
    {
        proof {
            use_type_invariant(self);
        }
        PlaylistId(self.0.clone())
    }
}

impl PlaylistId {
    /// What every value of the type holds: an identifier that is well
    /// formed.
    #[verifier::type_invariant]
    spec fn well_formed(self) -> bool {
        id_defect(self.0@) is None
    }

    /// The identifier, as a sequence of characters.
    pub closed spec fn spec_id(&self) -> Seq<char> {
        self.0@
    }

    /// The URI of the resource.
    pub open spec fn spec_uri(&self) -> Seq<char> {
        uri_of(IdType::Playlist, self.spec_id())
    }

    /// Creates an ID from a base-62 Spotify identifier string.
    ///
    /// # Errors
    /// Returns [`IdError::InvalidLength`] if the ID is not 22 bytes long.
    /// Returns [`IdError::InvalidFormat`] if the ID holds anything but
    /// ASCII letters and digits.
    pub fn from_id(id: &str) -> (r: Result<Self, IdError>)
        ensures
            match r {
                Ok(v) => id_defect(id@) is None && v.spec_id() == id@,
                Err(e) => id_defect(id@) == Some(e),
            },
    {
        check_id(id)?;
        Ok(PlaylistId(String::from_str(id)))
    }

    /// Creates an ID from a Spotify URI string (e.g.,
    /// `spotify:playlist:6rqhFgbbKwnb9MLmUQDhG6`).
    ///
    /// # Errors
    /// Returns [`IdError::InvalidFormat`] if the URI doesn't have the
    /// expected prefix, and the errors
    /// of [`Self::from_id`] for what follows the prefix.
    pub fn from_uri(uri: &str) -> (r: Result<Self, IdError>)
        ensures
            match stripped(uri@, uri_prefix(IdType::Playlist)) {
                Some(id) => match r {
                    Ok(v) => id_defect(id) is None && v.spec_id() == id,
                    Err(e) => id_defect(id) == Some(e),
                },
                None => r == Err::<Self, IdError>(IdError::InvalidFormat),
            },
    {
        let prefix = prefix_of(IdType::Playlist);
        let id = match strip_prefix(uri, prefix.as_str()) {
            Some(id) => id,
            None => {
                return Err(IdError::InvalidFormat);
            },
        };
        check_id(id)?;
        Ok(PlaylistId(String::from_str(id)))
    }

    /// The base-62 identifier found at the end of the Spotify URI for the
    /// resource. Unlike a Spotify URI, a Spotify ID does not clearly
    /// identify the type of resource; that information is provided
    /// elsewhere in the call.
    pub fn id(&self) -> (r: &str)
        ensures
            r@ == self.spec_id(),
            id_defect(r@) is None,
    {
        proof {
            use_type_invariant(self);
        }
        self.0.as_str()
    }

    /// The type of the resource.
    pub fn _type(&self) -> (r: IdType)
        ensures
            r == IdType::Playlist,
    {
        IdType::Playlist
    }

    /// The resource identifier of, for example, an artist, album or track.
    pub fn uri(&self) -> (r: String)
        ensures
            r@ == self.spec_uri(),
            stripped(r@, uri_prefix(IdType::Playlist)) == Some(self.spec_id()),
            id_defect(self.spec_id()) is None,
    {
        proof {
            use_type_invariant(self);
            lemma_uri_parses_back(IdType::Playlist, self.spec_id());
        }
        let mut out = prefix_of(IdType::Playlist);
        out.append(self.0.as_str());
        out
    }
}

/// A validated Spotify track ID.
#[derive(Debug, PartialEq, Eq)]
pub struct TrackId(String);

impl Clone for TrackId {
    fn clone(&self) -> (r: Self)
        ensures
            r.spec_id() == self.spec_id(),
    {
        proof {
            use_type_invariant(self);
        }
        TrackId(self.0.clone())
    }
}

impl TrackId {
    /// What every value of the type holds: an identifier that is well
    /// formed.
    #[verifier::type_invariant]
    spec fn well_formed(self) -> bool {
        id_defect(self.0@) is None
    }

    /// The identifier, as a sequence of characters.
    pub closed spec fn spec_id(&self) -> Seq<char> {
        self.0@
    }

    /// The URI of the resource.
    pub open spec fn spec_uri(&self) -> Seq<char> {
        uri_of(IdType::Track, self.spec_id())
    }

    /// Creates an ID from a base-62 Spotify identifier string.
    ///
    /// # Errors
    /// Returns [`IdError::InvalidLength`] if the ID is not 22 bytes long.
    /// Returns [`IdError::InvalidFormat`] if the ID holds anything but
    /// ASCII letters and digits.
    pub fn from_id(id: &str) -> (r: Result<Self, IdError>)
        ensures
            match r {
                Ok(v) => id_defect(id@) is None && v.spec_id() == id@,
                Err(e) => id_defect(id@) == Some(e),
            },
    {
        check_id(id)?;
        Ok(TrackId(String::from_str(id)))
    }

    /// Creates an ID from a Spotify URI string (e.g.,
    /// `spotify:track:6rqhFgbbKwnb9MLmUQDhG6`).
    ///
    /// # Errors
    /// Returns [`IdError::InvalidFormat`] if the URI doesn't have the
    /// expected prefix, and the errors
    /// of [`Self::from_id`] for what follows the prefix.
    pub fn from_uri(uri: &str) -> (r: Result<Self, IdError>)
        ensures
            match stripped(uri@, uri_prefix(IdType::Track)) {
                Some(id) => match r {
                    Ok(v) => id_defect(id) is None && v.spec_id() == id,
                    Err(e) => id_defect(id) == Some(e),
                },
                None => r == Err::<Self, IdError>(IdError::InvalidFormat),
            },
    {
        let prefix = prefix_of(IdType::Track);
        let id = match strip_prefix(uri, prefix.as_str()) {
            Some(id) => id,
            None => {
                return Err(IdError::InvalidFormat);
            },
        };
        check_id(id)?;
        Ok(TrackId(String::from_str(id)))
    }

    /// The base-62 identifier found at the end of the Spotify URI for the
    /// resource. Unlike a Spotify URI, a Spotify ID does not clearly
    /// identify the type of resource; that information is provided
    /// elsewhere in the call.
    pub fn id(&self) -> (r: &str)
        ensures
            r@ == self.spec_id(),
            id_defect(r@) is None,
    {
        proof {
            use_type_invariant(self);
        }
        self.0.as_str()
    }

    /// The type of the resource.
    pub fn _type(&self) -> (r: IdType)
        ensures
            r == IdType::Track,
    {
        IdType::Track
    }

    /// The resource identifier of, for example, an artist, album or track.
    pub fn uri(&self) -> (r: String)
        ensures
            r@ == self.spec_uri(),
            stripped(r@, uri_prefix(IdType::Track)) == Some(self.spec_id()),
            id_defect(self.spec_id()) is None,
    {
        proof {
            use_type_invariant(self);
            lemma_uri_parses_back(IdType::Track, self.spec_id());
        }
        let mut out = prefix_of(IdType::Track);
        out.append(self.0.as_str());
        out
    }
}

/// A validated Spotify album ID.
#[derive(Debug, PartialEq, Eq)]
pub struct AlbumId(String);

impl Clone for AlbumId {
    fn clone(&self) -> (r: Self)
        ensures
            r.spec_id() == self.spec_id(),
    {
        proof {
            use_type_invariant(self);
        }
        AlbumId(self.0.clone())
    }
}

impl AlbumId {
    /// What every value of the type holds: an identifier that is well
    /// formed.
    #[verifier::type_invariant]
    spec fn well_formed(self) -> bool {
        id_defect(self.0@) is None
    }

    /// The identifier, as a sequence of characters.
    pub closed spec fn spec_id(&self) -> Seq<char> {
        self.0@
    }

    /// The URI of the resource.
    pub open spec fn spec_uri(&self) -> Seq<char> {
        uri_of(IdType::Album, self.spec_id())
    }

    /// Creates an ID from a base-62 Spotify identifier string.
    ///
    /// # Errors
    /// Returns [`IdError::InvalidLength`] if the ID is not 22 bytes long.
    /// Returns [`IdError::InvalidFormat`] if the ID holds anything but
    /// ASCII letters and digits.
    pub fn from_id(id: &str) -> (r: Result<Self, IdError>)
        ensures
            match r {
                Ok(v) => id_defect(id@) is None && v.spec_id() == id@,
                Err(e) => id_defect(id@) == Some(e),
            },
    {
        check_id(id)?;
        Ok(AlbumId(String::from_str(id)))
    }

    /// Creates an ID from a Spotify URI string (e.g.,
    /// `spotify:album:6rqhFgbbKwnb9MLmUQDhG6`).
    ///
    /// # Errors
    /// Returns [`IdError::InvalidFormat`] if the URI doesn't have the
    /// expected prefix, and the errors
    /// of [`Self::from_id`] for what follows the prefix.
    pub fn from_uri(uri: &str) -> (r: Result<Self, IdError>)
        ensures
            match stripped(uri@, uri_prefix(IdType::Album)) {
                Some(id) => match r {
                    Ok(v) => id_defect(id) is None && v.spec_id() == id,
                    Err(e) => id_defect(id) == Some(e),
                },
                None => r == Err::<Self, IdError>(IdError::InvalidFormat),
            },
    {
        let prefix = prefix_of(IdType::Album);
        let id = match strip_prefix(uri, prefix.as_str()) {
            Some(id) => id,
            None => {
                return Err(IdError::InvalidFormat);
            },
        };
        check_id(id)?;
        Ok(AlbumId(String::from_str(id)))
    }

    /// The base-62 identifier found at the end of the Spotify URI for the
    /// resource. Unlike a Spotify URI, a Spotify ID does not clearly
    /// identify the type of resource; that information is provided
    /// elsewhere in the call.
    pub fn id(&self) -> (r: &str)
        ensures
            r@ == self.spec_id(),
            id_defect(r@) is None,
    {
        proof {
            use_type_invariant(self);
        }
        self.0.as_str()
    }

    /// The type of the resource.
    pub fn _type(&self) -> (r: IdType)
        ensures
            r == IdType::Album,
    {
        IdType::Album
    }

    /// The resource identifier of, for example, an artist, album or track.
    pub fn uri(&self) -> (r: String)
        ensures
            r@ == self.spec_uri(),
            stripped(r@, uri_prefix(IdType::Album)) == Some(self.spec_id()),
            id_defect(self.spec_id()) is None,
    {
        proof {
            use_type_invariant(self);
            lemma_uri_parses_back(IdType::Album, self.spec_id());
        }
        let mut out = prefix_of(IdType::Album);
        out.append(self.0.as_str());
        out
    }
}

/// A validated Spotify artist ID.
#[derive(Debug, PartialEq, Eq)]
pub struct ArtistId(String);

impl Clone for ArtistId {
    fn clone(&self) -> (r: Self)
        ensures
            r.spec_id() == self.spec_id(),
    {
        proof {
            use_type_invariant(self);
        }
        ArtistId(self.0.clone())
    }
}

impl ArtistId {
    /// What every value of the type holds: an identifier that is well
    /// formed.
    #[verifier::type_invariant]
    spec fn well_formed(self) -> bool {
        id_defect(self.0@) is None
    }

    /// The identifier, as a sequence of characters.
    pub closed spec fn spec_id(&self) -> Seq<char> {
        self.0@
    }

    /// The URI of the resource.
    pub open spec fn spec_uri(&self) -> Seq<char> {
        uri_of(IdType::Artist, self.spec_id())
    }

    /// Creates an ID from a base-62 Spotify identifier string.
    ///
    /// # Errors
    /// Returns [`IdError::InvalidLength`] if the ID is not 22 bytes long.
    /// Returns [`IdError::InvalidFormat`] if the ID holds anything but
    /// ASCII letters and digits.
    pub fn from_id(id: &str) -> (r: Result<Self, IdError>)
        ensures
            match r {
                Ok(v) => id_defect(id@) is None && v.spec_id() == id@,
                Err(e) => id_defect(id@) == Some(e),
            },
    {
        check_id(id)?;
        Ok(ArtistId(String::from_str(id)))
    }

    /// Creates an ID from a Spotify URI string (e.g.,
    /// `spotify:artist:6rqhFgbbKwnb9MLmUQDhG6`).
    ///
    /// # Errors
    /// Returns [`IdError::InvalidFormat`] if the URI doesn't have the
    /// expected prefix, and the errors
    /// of [`Self::from_id`] for what follows the prefix.
    pub fn from_uri(uri: &str) -> (r: Result<Self, IdError>)
        ensures
            match stripped(uri@, uri_prefix(IdType::Artist)) {
                Some(id) => match r {
                    Ok(v) => id_defect(id) is None && v.spec_id() == id,
                    Err(e) => id_defect(id) == Some(e),
                },
                None => r == Err::<Self, IdError>(IdError::InvalidFormat),
            },
    {
        let prefix = prefix_of(IdType::Artist);
        let id = match strip_prefix(uri, prefix.as_str()) {
            Some(id) => id,
            None => {
                return Err(IdError::InvalidFormat);
            },
        };
        check_id(id)?;
        Ok(ArtistId(String::from_str(id)))
    }

    /// The base-62 identifier found at the end of the Spotify URI for the
    /// resource. Unlike a Spotify URI, a Spotify ID does not clearly
    /// identify the type of resource; that information is provided
    /// elsewhere in the call.
    pub fn id(&self) -> (r: &str)
        ensures
            r@ == self.spec_id(),
            id_defect(r@) is None,
    {
        proof {
            use_type_invariant(self);
        }
        self.0.as_str()
    }

    /// The type of the resource.
    pub fn _type(&self) -> (r: IdType)
        ensures
            r == IdType::Artist,
    {
        IdType::Artist
    }

    /// The resource identifier of, for example, an artist, album or track.
    pub fn uri(&self) -> (r: String)
        ensures
            r@ == self.spec_uri(),
            stripped(r@, uri_prefix(IdType::Artist)) == Some(self.spec_id()),
            id_defect(self.spec_id()) is None,
    {
        proof {
            use_type_invariant(self);
            lemma_uri_parses_back(IdType::Artist, self.spec_id());
        }
        let mut out = prefix_of(IdType::Artist);
        out.append(self.0.as_str());
        out
    }
}

/// A validated Spotify show (podcast) ID.
#[derive(Debug, PartialEq, Eq)]
pub struct ShowId(String);

impl Clone for ShowId {
    fn clone(&self) -> (r: Self)
        ensures
            r.spec_id() == self.spec_id(),
    {
        proof {
            use_type_invariant(self);
        }
        ShowId(self.0.clone())
    }
}

impl ShowId {
    /// What every value of the type holds: an identifier that is well
    /// formed.
    #[verifier::type_invariant]
    spec fn well_formed(self) -> bool {
        id_defect(self.0@) is None
    }

    /// The identifier, as a sequence of characters.
    pub closed spec fn spec_id(&self) -> Seq<char> {
        self.0@
    }

    /// The URI of the resource.
    pub open spec fn spec_uri(&self) -> Seq<char> {
        uri_of(IdType::Show, self.spec_id())
    }

    /// Creates an ID from a base-62 Spotify identifier string.
    ///
    /// # Errors
    /// Returns [`IdError::InvalidLength`] if the ID is not 22 bytes long.
    /// Returns [`IdError::InvalidFormat`] if the ID holds anything but
    /// ASCII letters and digits.
    pub fn from_id(id: &str) -> (r: Result<Self, IdError>)
        ensures
            match r {
                Ok(v) => id_defect(id@) is None && v.spec_id() == id@,
                Err(e) => id_defect(id@) == Some(e),
            },
    {
        check_id(id)?;
        Ok(ShowId(String::from_str(id)))
    }

    /// Creates an ID from a Spotify URI string (e.g.,
    /// `spotify:show:6rqhFgbbKwnb9MLmUQDhG6`).
    ///
    /// # Errors
    /// Returns [`IdError::InvalidFormat`] if the URI doesn't have the
    /// expected prefix, and the errors
    /// of [`Self::from_id`] for what follows the prefix.
    pub fn from_uri(uri: &str) -> (r: Result<Self, IdError>)
        ensures
            match stripped(uri@, uri_prefix(IdType::Show)) {
                Some(id) => match r {
                    Ok(v) => id_defect(id) is None && v.spec_id() == id,
                    Err(e) => id_defect(id) == Some(e),
                },
                None => r == Err::<Self, IdError>(IdError::InvalidFormat),
            },
    {
        let prefix = prefix_of(IdType::Show);
        let id = match strip_prefix(uri, prefix.as_str()) {
            Some(id) => id,
            None => {
                return Err(IdError::InvalidFormat);
            },
        };
        check_id(id)?;
        Ok(ShowId(String::from_str(id)))
    }

    /// The base-62 identifier found at the end of the Spotify URI for the
    /// resource. Unlike a Spotify URI, a Spotify ID does not clearly
    /// identify the type of resource; that information is provided
    /// elsewhere in the call.
    pub fn id(&self) -> (r: &str)
        ensures
            r@ == self.spec_id(),
            id_defect(r@) is None,
    {
        proof {
            use_type_invariant(self);
        }
        self.0.as_str()
    }

    /// The type of the resource.
    pub fn _type(&self) -> (r: IdType)
        ensures
            r == IdType::Show,
    {
        IdType::Show
    }

    /// The resource identifier of, for example, an artist, album or track.
    pub fn uri(&self) -> (r: String)
        ensures
            r@ == self.spec_uri(),
            stripped(r@, uri_prefix(IdType::Show)) == Some(self.spec_id()),
            id_defect(self.spec_id()) is None,
    {
        proof {
            use_type_invariant(self);
            lemma_uri_parses_back(IdType::Show, self.spec_id());
        }
        let mut out = prefix_of(IdType::Show);
        out.append(self.0.as_str());
        out
    }
}

/// A validated Spotify episode ID.
#[derive(Debug, PartialEq, Eq)]
pub struct EpisodeId(String);

impl Clone for EpisodeId {
    fn clone(&self) -> (r: Self)
        ensures
            r.spec_id() == self.spec_id(),
    {
        proof {
            use_type_invariant(self);
        }
        EpisodeId(self.0.clone())
    }
}

impl EpisodeId {
    /// What every value of the type holds: an identifier that is well
    /// formed.
    #[verifier::type_invariant]
    spec fn well_formed(self) -> bool {
        id_defect(self.0@) is None
    }

    /// The identifier, as a sequence of characters.
    pub closed spec fn spec_id(&self) -> Seq<char> {
        self.0@
    }

    /// The URI of the resource.
    pub open spec fn spec_uri(&self) -> Seq<char> {
        uri_of(IdType::Episode, self.spec_id())
    }

    /// Creates an ID from a base-62 Spotify identifier string.
    ///
    /// # Errors
    /// Returns [`IdError::InvalidLength`] if the ID is not 22 bytes long.
    /// Returns [`IdError::InvalidFormat`] if the ID holds anything but
    /// ASCII letters and digits.
    pub fn from_id(id: &str) -> (r: Result<Self, IdError>)
        ensures
            match r {
                Ok(v) => id_defect(id@) is None && v.spec_id() == id@,
                Err(e) => id_defect(id@) == Some(e),
            },
    {
        check_id(id)?;
        Ok(EpisodeId(String::from_str(id)))
    }

    /// Creates an ID from a Spotify URI string (e.g.,
    /// `spotify:episode:6rqhFgbbKwnb9MLmUQDhG6`).
    ///
    /// # Errors
    /// Returns [`IdError::InvalidFormat`] if the URI doesn't have the
    /// expected prefix, and the errors
    /// of [`Self::from_id`] for what follows the prefix.
    pub fn from_uri(uri: &str) -> (r: Result<Self, IdError>)
        ensures
            match stripped(uri@, uri_prefix(IdType::Episode)) {
                Some(id) => match r {
                    Ok(v) => id_defect(id) is None && v.spec_id() == id,
                    Err(e) => id_defect(id) == Some(e),
                },
                None => r == Err::<Self, IdError>(IdError::InvalidFormat),
            },
    {
        let prefix = prefix_of(IdType::Episode);
        let id = match strip_prefix(uri, prefix.as_str()) {
            Some(id) => id,
            None => {
                return Err(IdError::InvalidFormat);
            },
        };
        check_id(id)?;
        Ok(EpisodeId(String::from_str(id)))
    }

    /// The base-62 identifier found at the end of the Spotify URI for the
    /// resource. Unlike a Spotify URI, a Spotify ID does not clearly
    /// identify the type of resource; that information is provided
    /// elsewhere in the call.
    pub fn id(&self) -> (r: &str)
        ensures
            r@ == self.spec_id(),
            id_defect(r@) is None,
    {
        proof {
            use_type_invariant(self);
        }
        self.0.as_str()
    }

    /// The type of the resource.
    pub fn _type(&self) -> (r: IdType)
        ensures
            r == IdType::Episode,
    {
        IdType::Episode
    }

    /// The resource identifier of, for example, an artist, album or track.
    pub fn uri(&self) -> (r: String)
        ensures
            r@ == self.spec_uri(),
            stripped(r@, uri_prefix(IdType::Episode)) == Some(self.spec_id()),
            id_defect(self.spec_id()) is None,
    {
        proof {
            use_type_invariant(self);
            lemma_uri_parses_back(IdType::Episode, self.spec_id());
        }
        let mut out = prefix_of(IdType::Episode);
        out.append(self.0.as_str());
        out
    }
}

/// A Spotify user ID.
#[derive(Debug, Clone, PartialEq, Eq)]
pub struct UserId(String);

impl UserId {
    /// The identifier, as a sequence of characters.
    pub closed spec fn spec_id(&self) -> Seq<char> {
        self.0@
    }

    /// The URI of the resource.
    pub open spec fn spec_uri(&self) -> Seq<char> {
        uri_of(IdType::User, self.spec_id())
    }

    /// Creates an ID from a Spotify identifier string. The ID of a user is
    /// taken as it is.
    pub fn from_id(id: &str) -> (r: Result<Self, IdError>)
        ensures
            r matches Ok(v) && v.spec_id() == id@,
    {
        Ok(UserId(String::from_str(id)))
    }

    /// Creates an ID from a Spotify URI string (e.g.,
    /// `spotify:user:6rqhFgbbKwnb9MLmUQDhG6`).
    ///
    /// # Errors
    /// Returns [`IdError::InvalidFormat`] if the URI doesn't have the
    /// expected prefix.
    pub fn from_uri(uri: &str) -> (r: Result<Self, IdError>)
        ensures
            match stripped(uri@, uri_prefix(IdType::User)) {
                Some(id) => r matches Ok(v) && v.spec_id() == id,
                None => r == Err::<Self, IdError>(IdError::InvalidFormat),
            },
    {
        let prefix = prefix_of(IdType::User);
        let id = match strip_prefix(uri, prefix.as_str()) {
            Some(id) => id,
            None => {
                return Err(IdError::InvalidFormat);
            },
        };
        Ok(UserId(String::from_str(id)))
    }

    /// The base-62 identifier found at the end of the Spotify URI for the
    /// resource. Unlike a Spotify URI, a Spotify ID does not clearly
    /// identify the type of resource; that information is provided
    /// elsewhere in the call.
    pub fn id(&self) -> (r: &str)
        ensures
            r@ == self.spec_id(),
    {
        self.0.as_str()
    }

    /// The type of the resource.
    pub fn _type(&self) -> (r: IdType)
        ensures
            r == IdType::User,
    {
        IdType::User
    }

    /// The resource identifier of, for example, an artist, album or track.
    pub fn uri(&self) -> (r: String)
        ensures
            r@ == self.spec_uri(),
            stripped(r@, uri_prefix(IdType::User)) == Some(self.spec_id()),
    {
        proof {
            lemma_uri_parses_back(IdType::User, self.spec_id());
        }
        let mut out = prefix_of(IdType::User);
        out.append(self.0.as_str());
        out
    }
}

/// A playback context type with its associated ID.
///
/// Represents items that can be used as a playback context (the source from
/// which tracks are played), such as an album, artist, playlist, or show.
#[derive(Debug, Clone, PartialEq, Eq)]
pub enum ContextType {
    Album(AlbumId),
    Artist(ArtistId),
    Playlist(PlaylistId),
    Show(ShowId),
}

impl ContextType {
    /// The URI of the context.
    pub open spec fn spec_uri(&self) -> Seq<char> {
        match self {
            ContextType::Album(id) => id.spec_uri(),
            ContextType::Artist(id) => id.spec_uri(),
            ContextType::Playlist(id) => id.spec_uri(),
            ContextType::Show(id) => id.spec_uri(),
        }
    }

    /// The type of the resource that the context is.
    pub open spec fn spec_kind(&self) -> IdType {
        match self {
            ContextType::Album(_) => IdType::Album,
            ContextType::Artist(_) => IdType::Artist,
            ContextType::Playlist(_) => IdType::Playlist,
            ContextType::Show(_) => IdType::Show,
        }
    }

    /// The identifier of the context.
    pub open spec fn spec_id(&self) -> Seq<char> {
        match self {
            ContextType::Album(id) => id.spec_id(),
            ContextType::Artist(id) => id.spec_id(),
            ContextType::Playlist(id) => id.spec_id(),
            ContextType::Show(id) => id.spec_id(),
        }
    }

    /// The URI of the context. It parses back to the identifier of the
    /// context, which is well formed.
    pub fn uri(&self) -> (r: String)
        ensures
            r@ == self.spec_uri(),
            stripped(r@, uri_prefix(self.spec_kind())) == Some(self.spec_id()),
            id_defect(self.spec_id()) is None,
    {
        match self {
            ContextType::Album(id) => id.uri(),
            ContextType::Artist(id) => id.uri(),
            ContextType::Playlist(id) => id.uri(),
            ContextType::Show(id) => id.uri(),
        }
    }
}

impl vstd::std_specs::convert::FromSpecImpl<AlbumId> for ContextType {
    open spec fn obeys_from_spec() -> bool {
        true
    }

    open spec fn from_spec(id: AlbumId) -> Self {
        ContextType::Album(id)
    }
}

impl From<AlbumId> for ContextType {
    fn from(id: AlbumId) -> (r: Self) {
        ContextType::Album(id)
    }
}

impl vstd::std_specs::convert::FromSpecImpl<ArtistId> for ContextType {
    open spec fn obeys_from_spec() -> bool {
        true
    }

    open spec fn from_spec(id: ArtistId) -> Self {
        ContextType::Artist(id)
    }
}

impl From<ArtistId> for ContextType {
    fn from(id: ArtistId) -> (r: Self) {
        ContextType::Artist(id)
    }
}

impl vstd::std_specs::convert::FromSpecImpl<PlaylistId> for ContextType {
    open spec fn obeys_from_spec() -> bool {
        true
    }

    open spec fn from_spec(id: PlaylistId) -> Self {
        ContextType::Playlist(id)
    }
}

impl From<PlaylistId> for ContextType {
    fn from(id: PlaylistId) -> (r: Self) {
        ContextType::Playlist(id)
    }
}

impl vstd::std_specs::convert::FromSpecImpl<ShowId> for ContextType {
    open spec fn obeys_from_spec() -> bool {
        true
    }

    open spec fn from_spec(id: ShowId) -> Self {
        ContextType::Show(id)
    }
}

impl From<ShowId> for ContextType {
    fn from(id: ShowId) -> (r: Self) {
        ContextType::Show(id)
    }
}

} // verus!
