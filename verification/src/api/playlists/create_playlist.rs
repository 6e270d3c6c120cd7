//! Create a playlist for a Spotify user.

use vstd::prelude::*;
use vstd::string::*;
use crate::api::client::Method;
use crate::api::endpoint::{Body, Endpoint};
use crate::api::error::BodyError;
use crate::api::params::{json_mime, JsonParams, QueryParams};
use crate::json::{json_text, lemma_object_view, members_view, Json, JsonValue};
use crate::text::concat3;
use crate::urls::Pair;

verus! {

/// Create a playlist for a Spotify user.
/// (The playlist will be empty until you [add tracks](https://developer.spotify.com/documentation/web-api/reference/add-tracks-to-playlist).)
/// Each user is generally limited to a maximum of 11000 playlists.
#[derive(Debug, Clone)]
pub struct CreatePlaylist {
    /// The user's [Spotify user ID](https://developer.spotify.com/documentation/web-api/concepts/spotify-uris-ids).
    pub id: String,
    /// The new name for the playlist, for example "My New Playlist Title".
    pub name: String,
    /// The playlist's public/private status (if it should be added to the user's profile or not):
    /// true the playlist will be public,
    /// false the playlist will be private, null the playlist status is not relevant.
    /// For more about public/private status, see [Working with Playlists](https://developer.spotify.com/documentation/web-api/concepts/playlists).
    pub public: Option<bool>,
    /// If true, the playlist will become collaborative and other users will be able to modify the playlist in their Spotify client.
    /// # Note:
    /// You can only set collaborative to true on non-public playlists.
    pub collaborative: Option<bool>,
    /// Value for playlist description as displayed in Spotify Clients and in the Web API.
    pub description: Option<String>,
}

impl Endpoint for CreatePlaylist {
    open spec fn spec_method(&self) -> Method {
        Method::Post
    }

    open spec fn spec_endpoint(&self) -> Seq<char> {
        "users/"@ + self.id@ + "/playlists"@
    }

    open spec fn spec_parameters(&self) -> Seq<Pair> {
        Seq::empty()
    }

    open spec fn spec_body(&self) -> Option<Option<Body>> {
        match json_text(self.spec_json()) {
            Some(text) => Some(Some((json_mime(), text))),
            None => None,
        }
    }

    fn method(&self) -> (r: Method) {
        Method::Post
    }

    fn endpoint(&self) -> (r: String) {
        concat3("users/", self.id.as_str(), "/playlists")
    }

    fn parameters(&self) -> (r: QueryParams) {
        QueryParams::new()
    }

    fn body(&self) -> (r: Result<Option<(&'static str, Vec<u8>)>, BodyError>) {
        JsonParams::into_body(&self.json())
    }
}

impl CreatePlaylist {
    /// The members of the JSON body: the name, and each of `public`,
    /// `collaborative` and `description` that is set.
    pub open spec fn spec_members(&self) -> Seq<(Seq<char>, JsonValue)> {
        let name = seq![("name"@, JsonValue::Str(self.name@))];
        let public = match self.public {
            Some(b) => seq![("public"@, JsonValue::Bool(b))],
            None => Seq::empty(),
        };
        let collaborative = match self.collaborative {
            Some(b) => seq![("collaborative"@, JsonValue::Bool(b))],
            None => Seq::empty(),
        };
        let description = match self.description {
            Some(d) => seq![("description"@, JsonValue::Str(d@))],
            None => Seq::empty(),
        };
        name + public + collaborative + description
    }

    /// The JSON body: an object of [`Self::spec_members`].
    pub open spec fn spec_json(&self) -> JsonValue {
        JsonValue::Object(self.spec_members())
    }

    /// The JSON body of the request.
    pub fn json(&self) -> (r: Json)
        ensures
            r@ == self.spec_json(),
    {
        let mut members: Vec<(String, Json)> = Vec::new();
        members.push((String::from_str("name"), Json::from_str(self.name.as_str())));
        if let Some(public) = self.public {
            members.push((String::from_str("public"), Json::from_bool(public)));
        }
        if let Some(collaborative) = self.collaborative {
            members.push((String::from_str("collaborative"), Json::from_bool(collaborative)));
        }
        if let Some(description) = &self.description {
            members.push((String::from_str("description"), Json::from_str(description.as_str())));
        }
        proof {
            lemma_object_view(members);
            assert(members_view(members@) =~= self.spec_members());
        }
        Json::Object(members)
    }
}

} // verus!
