//! Remove one or more tracks from the current user's library.

use vstd::prelude::*;
use vstd::string::*;
use crate::api::client::Method;
use crate::api::common::{copy_strings, BuilderError};
use crate::api::endpoint::{Body, Endpoint};
use crate::api::error::BodyError;
use crate::api::params::QueryParams;
use crate::text::{join_comma, joined, views};
use crate::urls::Pair;

verus! {

/// Remove one or more tracks from the current user's library.
///
/// This API endpoint is in beta and could change without warning. Please share any feedback that you have, or issues that you discover, in the [Spotify developer community forum](https://community.spotify.com/t5/Spotify-for-Developers/bd-p/Spotify_Developer).
#[derive(Debug, Clone)]
pub struct RemoveUserSavedTracks {
    /// A list of [Spotify IDs](https://developer.spotify.com/documentation/web-api/concepts/spotify-uris-ids) for the tracks.
    pub ids: Vec<String>,
}

impl Endpoint for RemoveUserSavedTracks {
    open spec fn spec_method(&self) -> Method {
        Method::Delete
    }

    open spec fn spec_endpoint(&self) -> Seq<char> {
        "me/tracks"@
    }

    open spec fn spec_parameters(&self) -> Seq<Pair> {
        seq![("ids"@, joined(views(self.ids@), seq![',']))]
    }

    open spec fn spec_body(&self) -> Option<Option<Body>> {
        Some(None)
    }

    fn method(&self) -> (r: Method) {
        Method::Delete
    }

    fn endpoint(&self) -> (r: String) {
        String::from_str("me/tracks")
    }

    fn parameters(&self) -> (r: QueryParams) {
        let mut params = QueryParams::new();
        params.push("ids", &join_comma(&self.ids));
        assert(params@ =~= self.spec_parameters());
        params
    }

    fn body(&self) -> (r: Result<Option<(&'static str, Vec<u8>)>, BodyError>) {
        Ok(None)
    }
}

/// Builder for [`RemoveUserSavedTracks`].
#[derive(Debug, Clone)]
pub struct RemoveUserSavedTracksBuilder {
    pub ids: Option<Vec<String>>,
}

impl Default for RemoveUserSavedTracksBuilder {
    fn default() -> (r: Self)
        ensures
            r.ids is None,
    {
        RemoveUserSavedTracksBuilder { ids: None }
    }
}

impl RemoveUserSavedTracksBuilder {
    /// Sets `ids`.
    pub fn ids(&mut self, value: Vec<String>) -> (ret: &mut Self)
        ensures
            ret.ids == Some(value),
            *final(self) == *final(ret),
    {
        self.ids = Some(value);
        self
    }

    /// Adds one ID to the list of IDs.
    pub fn id(&mut self, id: &str) -> (ret: &mut Self)
        ensures
            ret.ids matches Some(ids) && views(ids@) == match old(self).ids {
                Some(before) => views(before@),
                None => Seq::empty(),
            }.push(id@),
            *final(self) == *final(ret),
    {
        let mut ids = match self.ids.take() {
            Some(ids) => ids,
            None => Vec::new(),
        };
        let ghost before = views(ids@);
        ids.push(String::from_str(id));
        assert(views(ids@) =~= before.push(id@));
        self.ids = Some(ids);
        self
    }

    /// Builds the endpoint; fails where a required field was not set.
    pub fn build(&self) -> (r: Result<RemoveUserSavedTracks, BuilderError>)
        ensures
            r is Ok <==> self.ids is Some,
            r matches Err(e) ==> e matches BuilderError::UninitializedField(name) && name@ == "ids"@,
            r matches Ok(e) ==> {
                &&& views(e.ids@) == views(self.ids->Some_0@)
            },
    {
        let ids = match &self.ids {
            Some(v) => copy_strings(v),
            None => {
                return Err(BuilderError::UninitializedField("ids"));
            },
        };
        Ok(RemoveUserSavedTracks { ids })
    }
}

impl RemoveUserSavedTracks {
    /// Create a builder for the endpoint.
    pub fn builder() -> (r: RemoveUserSavedTracksBuilder)
        ensures
            r.ids is None,
    {
        RemoveUserSavedTracksBuilder::default()
    }
}

} // verus!
