//! Get a list of the playlists owned or followed by the current Spotify user.

use vstd::prelude::*;
use vstd::string::*;
use crate::api::client::Method;
use crate::api::endpoint::{Body, Endpoint, Pageable};
use crate::api::error::BodyError;
use crate::api::params::QueryParams;
use crate::urls::Pair;

verus! {

/// Get a list of the playlists owned or followed by the current Spotify user.
#[derive(Debug, Clone, Copy)]
pub struct GetCurrentUserPlaylists;

impl Endpoint for GetCurrentUserPlaylists {
    open spec fn spec_method(&self) -> Method {
        Method::Get
    }

    open spec fn spec_endpoint(&self) -> Seq<char> {
        "me/playlists"@
    }

    open spec fn spec_parameters(&self) -> Seq<Pair> {
        Seq::empty()
    }

    open spec fn spec_body(&self) -> Option<Option<Body>> {
        Some(None)
    }

    fn method(&self) -> (r: Method) {
        Method::Get
    }

    fn endpoint(&self) -> (r: String) {
        String::from_str("me/playlists")
    }

    fn parameters(&self) -> (r: QueryParams) {
        QueryParams::new()
    }

    fn body(&self) -> (r: Result<Option<(&'static str, Vec<u8>)>, BodyError>) {
        Ok(None)
    }
}

impl Pageable for GetCurrentUserPlaylists {
}

impl Default for GetCurrentUserPlaylists {
    fn default() -> (r: Self)
        ensures
            r == GetCurrentUserPlaylists,
    {
        GetCurrentUserPlaylists
    }
}

} // verus!
