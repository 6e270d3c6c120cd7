//! Scopes: what an application asks a user to let it do.

use vstd::prelude::*;
use vstd::string::*;
use crate::text::{joined, str_eq};

verus! {

/// A scope of authorization.
#[derive(Debug, Clone, Copy, PartialEq, Eq, Structural, Hash)]
pub enum Scope {
    /// Write access to user-provided images.
    UgcImageUpload,
    /// Read access to a user's player state.
    UserReadPlaybackState,
    /// Write access to a user's playback state.
    UserModifyPlaybackState,
    /// Read access to a user's currently playing content.
    UserReadCurrentlyPlaying,
    /// Remote control playback of Spotify.
    AppRemoteControl,
    /// Control playback of a Spotify track.
    Streaming,
    /// Read access to user's private playlists.
    PlaylistReadPrivate,
    /// Include collaborative playlists when requesting a user's playlists.
    PlaylistReadCollaborative,
    /// Write access to a user's private playlists.
    PlaylistModifyPrivate,
    /// Write access to a user's public playlists.
    PlaylistModifyPublic,
    /// Write/delete access to the list of artists and other users that the user follows.
    UserFollowModify,
    /// Read access to the list of artists and other users that the user follows.
    UserFollowRead,
    /// Read access to a user's playback position in a content.
    UserReadPlaybackPosition,
    /// Read access to a user's top artists and tracks.
    UserTopRead,
    /// Read access to a user's recently played tracks.
    UserReadRecentlyPlayed,
    /// Write/delete access to a user's "Your Music" library.
    UserLibraryModify,
    /// Read access to a user's library.
    UserLibraryRead,
    /// Read access to user's email address.
    UserReadEmail,
    /// Read access to user's subscription details (type of user account).
    UserReadPrivate,
}

impl Scope {
    /// The name of the scope as the service writes it.
    pub open spec fn spec_text(&self) -> Seq<char> {
        match self {
            Scope::UgcImageUpload => "ugc-image-upload"@,
            Scope::UserReadPlaybackState => "user-read-playback-state"@,
            Scope::UserModifyPlaybackState => "user-modify-playback-state"@,
            Scope::UserReadCurrentlyPlaying => "user-read-currently-playing"@,
            Scope::AppRemoteControl => "app-remote-control"@,
            Scope::Streaming => "streaming"@,
            Scope::PlaylistReadPrivate => "playlist-read-private"@,
            Scope::PlaylistReadCollaborative => "playlist-read-collaborative"@,
            Scope::PlaylistModifyPrivate => "playlist-modify-private"@,
            Scope::PlaylistModifyPublic => "playlist-modify-public"@,
            Scope::UserFollowModify => "user-follow-modify"@,
            Scope::UserFollowRead => "user-follow-read"@,
            Scope::UserReadPlaybackPosition => "user-read-playback-position"@,
            Scope::UserTopRead => "user-top-read"@,
            Scope::UserReadRecentlyPlayed => "user-read-recently-played"@,
            Scope::UserLibraryModify => "user-library-modify"@,
            Scope::UserLibraryRead => "user-library-read"@,
            Scope::UserReadEmail => "user-read-email"@,
            Scope::UserReadPrivate => "user-read-private"@,
        }
    }

    /// The scope that the service writes as `text`.
    pub open spec fn named(text: Seq<char>) -> Option<Self> {
        if text == "ugc-image-upload"@ {
            Some(Scope::UgcImageUpload)
        }         else if text == "user-read-playback-state"@ {
            Some(Scope::UserReadPlaybackState)
        }         else if text == "user-modify-playback-state"@ {
            Some(Scope::UserModifyPlaybackState)
        }         else if text == "user-read-currently-playing"@ {
            Some(Scope::UserReadCurrentlyPlaying)
        }         else if text == "app-remote-control"@ {
            Some(Scope::AppRemoteControl)
        }         else if text == "streaming"@ {
            Some(Scope::Streaming)
        }         else if text == "playlist-read-private"@ {
            Some(Scope::PlaylistReadPrivate)
        }         else if text == "playlist-read-collaborative"@ {
            Some(Scope::PlaylistReadCollaborative)
        }         else if text == "playlist-modify-private"@ {
            Some(Scope::PlaylistModifyPrivate)
        }         else if text == "playlist-modify-public"@ {
            Some(Scope::PlaylistModifyPublic)
        }         else if text == "user-follow-modify"@ {
            Some(Scope::UserFollowModify)
        }         else if text == "user-follow-read"@ {
            Some(Scope::UserFollowRead)
        }         else if text == "user-read-playback-position"@ {
            Some(Scope::UserReadPlaybackPosition)
        }         else if text == "user-top-read"@ {
            Some(Scope::UserTopRead)
        }         else if text == "user-read-recently-played"@ {
            Some(Scope::UserReadRecentlyPlayed)
        }         else if text == "user-library-modify"@ {
            Some(Scope::UserLibraryModify)
        }         else if text == "user-library-read"@ {
            Some(Scope::UserLibraryRead)
        }         else if text == "user-read-email"@ {
            Some(Scope::UserReadEmail)
        }         else if text == "user-read-private"@ {
            Some(Scope::UserReadPrivate)
        } else {
            None
        }
    }

    /// The name of the scope as the service writes it.
    pub fn as_str(&self) -> (r: &'static str)
        ensures
            r@ == self.spec_text(),
    {
        match self {
            Scope::UgcImageUpload => "ugc-image-upload",
            Scope::UserReadPlaybackState => "user-read-playback-state",
            Scope::UserModifyPlaybackState => "user-modify-playback-state",
            Scope::UserReadCurrentlyPlaying => "user-read-currently-playing",
            Scope::AppRemoteControl => "app-remote-control",
            Scope::Streaming => "streaming",
            Scope::PlaylistReadPrivate => "playlist-read-private",
            Scope::PlaylistReadCollaborative => "playlist-read-collaborative",
            Scope::PlaylistModifyPrivate => "playlist-modify-private",
            Scope::PlaylistModifyPublic => "playlist-modify-public",
            Scope::UserFollowModify => "user-follow-modify",
            Scope::UserFollowRead => "user-follow-read",
            Scope::UserReadPlaybackPosition => "user-read-playback-position",
            Scope::UserTopRead => "user-top-read",
            Scope::UserReadRecentlyPlayed => "user-read-recently-played",
            Scope::UserLibraryModify => "user-library-modify",
            Scope::UserLibraryRead => "user-library-read",
            Scope::UserReadEmail => "user-read-email",
            Scope::UserReadPrivate => "user-read-private",
        }
    }

    /// The name of the scope as the service writes it.
    pub fn to_string(&self) -> (r: String)
        ensures
            r@ == self.spec_text(),
    {
        String::from_str(self.as_str())
    }

    /// The scope that the service writes as `text`; `None` where it is the
    /// name of none.
    pub fn try_from(text: &str) -> (r: Option<Self>)
        ensures
            r == Self::named(text@),
    {
        if str_eq(text, "ugc-image-upload") {
            Some(Scope::UgcImageUpload)
        }         else if str_eq(text, "user-read-playback-state") {
            Some(Scope::UserReadPlaybackState)
        }         else if str_eq(text, "user-modify-playback-state") {
            Some(Scope::UserModifyPlaybackState)
        }         else if str_eq(text, "user-read-currently-playing") {
            Some(Scope::UserReadCurrentlyPlaying)
        }         else if str_eq(text, "app-remote-control") {
            Some(Scope::AppRemoteControl)
        }         else if str_eq(text, "streaming") {
            Some(Scope::Streaming)
        }         else if str_eq(text, "playlist-read-private") {
            Some(Scope::PlaylistReadPrivate)
        }         else if str_eq(text, "playlist-read-collaborative") {
            Some(Scope::PlaylistReadCollaborative)
        }         else if str_eq(text, "playlist-modify-private") {
            Some(Scope::PlaylistModifyPrivate)
        }         else if str_eq(text, "playlist-modify-public") {
            Some(Scope::PlaylistModifyPublic)
        }         else if str_eq(text, "user-follow-modify") {
            Some(Scope::UserFollowModify)
        }         else if str_eq(text, "user-follow-read") {
            Some(Scope::UserFollowRead)
        }         else if str_eq(text, "user-read-playback-position") {
            Some(Scope::UserReadPlaybackPosition)
        }         else if str_eq(text, "user-top-read") {
            Some(Scope::UserTopRead)
        }         else if str_eq(text, "user-read-recently-played") {
            Some(Scope::UserReadRecentlyPlayed)
        }         else if str_eq(text, "user-library-modify") {
            Some(Scope::UserLibraryModify)
        }         else if str_eq(text, "user-library-read") {
            Some(Scope::UserLibraryRead)
        }         else if str_eq(text, "user-read-email") {
            Some(Scope::UserReadEmail)
        }         else if str_eq(text, "user-read-private") {
            Some(Scope::UserReadPrivate)
        } else {
            None
        }
    }
}

/// The names of a list of scopes.
pub open spec fn names_of(scopes: Seq<Scope>) -> Seq<Seq<char>> {
    scopes.map_values(|scope: Scope| scope.spec_text())
}

/// The names of `scopes`, separated by spaces.
pub fn scope_text(scopes: &Vec<Scope>) -> (r: String)
    ensures
        r@ == joined(names_of(scopes@), seq![' ']),
{
    let ghost all = names_of(scopes@);
    let mut out = String::new();
    let mut i: usize = 0;
    proof {
        reveal_strlit(" ");
    }
    while i < scopes.len()
        invariant
            i <= scopes.len(),
            all == names_of(scopes@),
            out@ == joined(all.take(i as int), seq![' ']),
            " "@ == seq![' '],
        decreases scopes.len() - i,
    {
        let ghost before = all.take(i as int);
        let ghost after = all.take(i + 1);
        proof {
            assert(after.drop_last() =~= before);
            assert(after.last() == scopes@[i as int].spec_text());
        }
        if i > 0 {
            out.append(" ");
        }
        out.append(scopes[i].as_str());
        proof {
            if i == 0 {
                assert(before.len() == 0);
                assert(out@ =~= all[0]);
            }
        }
        i += 1;
    }
    proof {
        assert(all.take(i as int) =~= all);
    }
    out
}

/// Whether `scopes` holds `scope`.
pub fn has_scope(scopes: &Vec<Scope>, scope: Scope) -> (r: bool)
    ensures
        r == scopes@.contains(scope),
{
    let mut i: usize = 0;
    while i < scopes.len()
        invariant
            i <= scopes.len(),
            forall|k: int| 0 <= k < i ==> scopes@[k] != scope,
        decreases scopes.len() - i,
    {
        if scopes[i] == scope {
            return true;
        }
        i += 1;
    }
    false
}

/// The scopes for reading the details of a user: the address and the
/// subscription.
pub fn user_details() -> (r: Vec<Scope>)
    ensures
        r@ == seq![Scope::UserReadEmail, Scope::UserReadPrivate],
{
    vec![Scope::UserReadEmail, Scope::UserReadPrivate]
}

/// The scopes for reading and changing playlists.
pub fn playlists() -> (r: Vec<Scope>)
    ensures
        r@ == seq![
            Scope::PlaylistReadPrivate,
            Scope::PlaylistReadCollaborative,
            Scope::PlaylistModifyPrivate,
            Scope::PlaylistModifyPublic,
        ],
{
    vec![
        Scope::PlaylistReadPrivate,
        Scope::PlaylistReadCollaborative,
        Scope::PlaylistModifyPrivate,
        Scope::PlaylistModifyPublic,
    ]
}

} // verus!
