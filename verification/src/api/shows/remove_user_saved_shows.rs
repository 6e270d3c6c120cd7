//! Remove one or more shows from the Spotify user's library.

use vstd::prelude::*;
use vstd::string::*;
use crate::api::client::Method;
use crate::api::common::{optional, owned};
use crate::api::endpoint::{Body, Endpoint};
use crate::api::error::BodyError;
use crate::api::params::QueryParams;
use crate::model::Market;
use crate::text::{join_comma, joined, views};
use crate::urls::Pair;

verus! {

/// Remove one or more shows from the Spotify user's library.
#[derive(Debug, Clone)]
pub struct RemoveUserSavedShows {
    /// A list of [Spotify IDs](https://developer.spotify.com/documentation/web-api/concepts/spotify-uris-ids) for the shows.
    pub ids: Vec<String>,
    /// An [ISO 3166-1 alpha-2 country code](https://en.wikipedia.org/wiki/ISO_3166-1_alpha-2).
    /// If a country code is specified, only content that is available in that market will be returned.
    /// If a valid user access token is specified in the request header, the country associated with the user account will take priority over this parameter.
    ///
    /// # Notes
    /// If neither market or user country are provided, the content is considered unavailable for the client.
    /// Users can view the country that is associated with their account in the [account settings](https://www.spotify.com/account/overview/).
    pub market: Option<Market>,
}

impl Endpoint for RemoveUserSavedShows {
    open spec fn spec_method(&self) -> Method {
        Method::Delete
    }

    open spec fn spec_endpoint(&self) -> Seq<char> {
        "me/shows"@
    }

    open spec fn spec_parameters(&self) -> Seq<Pair> {
        seq![("ids"@, joined(views(self.ids@), seq![',']))]
            + optional("market"@, match self.market {
            Some(m) => Some(m@),
            None => None,
        })
    }

    open spec fn spec_body(&self) -> Option<Option<Body>> {
        Some(None)
    }

    fn method(&self) -> (r: Method) {
        Method::Delete
    }

    fn endpoint(&self) -> (r: String) {
        String::from_str("me/shows")
    }

    fn parameters(&self) -> (r: QueryParams) {
        let mut params = QueryParams::new();
        params.push("ids", &join_comma(&self.ids));
        params.push_opt("market", match &self.market {
            Some(v) => Some(v),
            None => None,
        });
        assert(params@ =~= self.spec_parameters());
        params
    }

    fn body(&self) -> (r: Result<Option<(&'static str, Vec<u8>)>, BodyError>) {
        Ok(None)
    }
}

impl vstd::std_specs::convert::FromSpecImpl<Vec<String>> for RemoveUserSavedShows {
    open spec fn obeys_from_spec() -> bool {
        true
    }

    open spec fn from_spec(ids: Vec<String>) -> Self {
        RemoveUserSavedShows { ids, market: None }
    }
}

impl From<Vec<String>> for RemoveUserSavedShows {
    fn from(ids: Vec<String>) -> (r: Self) {
        RemoveUserSavedShows { ids, market: None }
    }
}

impl RemoveUserSavedShows {
    /// The endpoint for the items with the IDs `ids`.
    pub fn from_ids(ids: &[&str]) -> (r: Self)
        ensures
            views(r.ids@) == ids@.map_values(|id: &str| id@),
            r.market is None,
    {
        RemoveUserSavedShows { ids: owned(ids), market: None }
    }
}

// The conversion makes new strings: what it returns is stated on `from`.
impl<'a, const N: usize> vstd::std_specs::convert::FromSpecImpl<[&'a str; N]> for RemoveUserSavedShows {
    open spec fn obeys_from_spec() -> bool {
        false
    }

    open spec fn from_spec(ids: [&'a str; N]) -> Self {
        arbitrary()
    }
}

impl<'a, const N: usize> From<[&'a str; N]> for RemoveUserSavedShows {
    fn from(ids: [&'a str; N]) -> (r: Self)
        ensures
            views(r.ids@) == ids@.map_values(|id: &str| id@),
            r.market is None,
    {
        RemoveUserSavedShows::from_ids(ids.as_slice())
    }
}

} // verus!
