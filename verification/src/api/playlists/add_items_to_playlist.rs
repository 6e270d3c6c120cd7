//! Add one or more items to a user's playlist.

use vstd::prelude::*;
use vstd::string::*;
use crate::api::client::Method;
use crate::api::common::{join_uris, optional, uris_of};
use crate::api::endpoint::{Body, Endpoint};
use crate::api::error::BodyError;
use crate::api::params::QueryParams;
use crate::model::PlaylistItem;
use crate::text::{concat3, decimal, joined};
use crate::urls::Pair;

verus! {

/// Add one or more items to a user's playlist.
#[derive(Debug, Clone)]
pub struct AddItemsToPlaylist {
    /// The [Spotify ID](https://developer.spotify.com/documentation/web-api/concepts/spotify-uris-ids) of the playlist.
    pub id: String,
    /// The position to insert the items, a zero-based index.
    /// For example, to insert the items in the first position: position=0; to insert the items in the third position: position=2.
    /// If omitted, the items will be appended to the playlist.
    /// Items are added in the order they are listed in the query string or request body.
    pub position: Option<u32>,
    /// A list of [Spotify URIs](https://developer.spotify.com/documentation/web-api/concepts/spotify-uris-ids) to set, can be track or episode URIs.
    pub uris: Vec<PlaylistItem>,
}

impl Endpoint for AddItemsToPlaylist {
    open spec fn spec_method(&self) -> Method {
        Method::Post
    }

    open spec fn spec_endpoint(&self) -> Seq<char> {
        "playlists/"@ + self.id@ + "/tracks"@
    }

    open spec fn spec_parameters(&self) -> Seq<Pair> {
        seq![("uris"@, joined(uris_of(self.uris@), seq![',']))]
            + optional("position"@, match self.position {
            Some(n) => Some(decimal(n as nat)),
            None => None,
        })
    }

    open spec fn spec_body(&self) -> Option<Option<Body>> {
        Some(None)
    }

    fn method(&self) -> (r: Method) {
        Method::Post
    }

    fn endpoint(&self) -> (r: String) {
        concat3("playlists/", self.id.as_str(), "/tracks")
    }

    fn parameters(&self) -> (r: QueryParams) {
        let mut params = QueryParams::new();
        params.push("uris", &join_uris(&self.uris));
        params.push_opt("position", self.position);
        assert(params@ =~= self.spec_parameters());
        params
    }

    fn body(&self) -> (r: Result<Option<(&'static str, Vec<u8>)>, BodyError>) {
        Ok(None)
    }
}

} // verus!
