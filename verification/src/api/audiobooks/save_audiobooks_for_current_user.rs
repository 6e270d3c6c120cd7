//! Save one or more audiobooks to the current Spotify user's library.

use vstd::prelude::*;
use vstd::string::*;
use crate::api::client::Method;
use crate::api::common::owned;
use crate::api::endpoint::{Body, Endpoint};
use crate::api::error::BodyError;
use crate::api::params::QueryParams;
use crate::text::{join_comma, joined, views};
use crate::urls::Pair;

verus! {

/// Save one or more audiobooks to the current Spotify user's library.
#[derive(Debug, Clone)]
pub struct SaveAudiobooksForCurrentUser {
    /// A list of [Spotify IDs](https://developer.spotify.com/documentation/web-api/concepts/spotify-uris-ids) for the audiobooks.
    pub ids: Vec<String>,
}

impl Endpoint for SaveAudiobooksForCurrentUser {
    open spec fn spec_method(&self) -> Method {
        Method::Put
    }

    open spec fn spec_endpoint(&self) -> Seq<char> {
        "me/audiobooks"@
    }

    open spec fn spec_parameters(&self) -> Seq<Pair> {
        seq![("ids"@, joined(views(self.ids@), seq![',']))]
    }

    open spec fn spec_body(&self) -> Option<Option<Body>> {
        Some(None)
    }

    fn method(&self) -> (r: Method) {
        Method::Put
    }

    fn endpoint(&self) -> (r: String) {
        String::from_str("me/audiobooks")
    }

    fn parameters(&self) -> (r: QueryParams) {
        let mut params = QueryParams::new();
        params.push("ids", &join_comma(&self.ids));
        assert(params@ =~= self.spec_parameters());
        params
    }

    fn body(&self) -> (r: Result<Option<(&'static str, Vec<u8>)>, BodyError>) {
        Ok(None)
    }
}

impl vstd::std_specs::convert::FromSpecImpl<Vec<String>> for SaveAudiobooksForCurrentUser {
    open spec fn obeys_from_spec() -> bool {
        true
    }

    open spec fn from_spec(ids: Vec<String>) -> Self {
        SaveAudiobooksForCurrentUser { ids }
    }
}

impl From<Vec<String>> for SaveAudiobooksForCurrentUser {
    fn from(ids: Vec<String>) -> (r: Self) {
        SaveAudiobooksForCurrentUser { ids }
    }
}

impl SaveAudiobooksForCurrentUser {
    /// The endpoint for the items with the IDs `ids`.
    pub fn from_ids(ids: &[&str]) -> (r: Self)
        ensures
            views(r.ids@) == ids@.map_values(|id: &str| id@),
    {
        SaveAudiobooksForCurrentUser { ids: owned(ids) }
    }
}

// The conversion makes new strings: what it returns is stated on `from`.
impl<'a, const N: usize> vstd::std_specs::convert::FromSpecImpl<[&'a str; N]> for SaveAudiobooksForCurrentUser {
    open spec fn obeys_from_spec() -> bool {
        false
    }

    open spec fn from_spec(ids: [&'a str; N]) -> Self {
        arbitrary()
    }
}

impl<'a, const N: usize> From<[&'a str; N]> for SaveAudiobooksForCurrentUser {
    fn from(ids: [&'a str; N]) -> (r: Self)
        ensures
            views(r.ids@) == ids@.map_values(|id: &str| id@),
    {
        SaveAudiobooksForCurrentUser::from_ids(ids.as_slice())
    }
}

} // verus!
