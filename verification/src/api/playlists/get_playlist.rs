//! Get a playlist owned by a Spotify user.

use vstd::prelude::*;
use vstd::string::*;
use crate::api::client::Method;
use crate::api::common::{optional, owned};
use crate::api::endpoint::{Body, Endpoint};
use crate::api::error::BodyError;
use crate::api::params::QueryParams;
use crate::model::Market;
use crate::text::concat;
use crate::urls::Pair;

verus! {

/// Get a playlist owned by a Spotify user.
#[derive(Debug, Clone)]
pub struct GetPlaylist {
    /// The [Spotify ID](https://developer.spotify.com/documentation/web-api/concepts/spotify-uris-ids) of the playlist.
    pub id: String,
    /// An [ISO 3166-1 alpha-2 country code](https://en.wikipedia.org/wiki/ISO_3166-1_alpha-2).
    /// If a country code is specified, only content that is available in that market will be returned.
    /// If a valid user access token is specified in the request header, the country associated with the user account will take priority over this parameter.
    ///
    /// # Notes
    /// If neither market or user country are provided, the content is considered unavailable for the client.
    /// Users can view the country that is associated with their account in the [account settings](https://www.spotify.com/account/overview/).
    pub market: Option<Market>,
}

impl Endpoint for GetPlaylist {
    open spec fn spec_method(&self) -> Method {
        Method::Get
    }

    open spec fn spec_endpoint(&self) -> Seq<char> {
        "playlists/"@ + self.id@
    }

    open spec fn spec_parameters(&self) -> Seq<Pair> {
        optional("market"@, match self.market {
            Some(m) => Some(m@),
            None => None,
        })
    }

    open spec fn spec_body(&self) -> Option<Option<Body>> {
        Some(None)
    }

    fn method(&self) -> (r: Method) {
        Method::Get
    }

    fn endpoint(&self) -> (r: String) {
        concat("playlists/", self.id.as_str())
    }

    fn parameters(&self) -> (r: QueryParams) {
        let mut params = QueryParams::new();
        params.push_opt("market", match &self.market {
            Some(v) => Some(v),
            None => None,
        });
        assert(params@ =~= self.spec_parameters());
        params
    }

    fn body(&self) -> (r: Result<Option<(&'static str, Vec<u8>)>, BodyError>) {
        Ok(None)
    }
}

// The conversion makes a new string: what it returns is stated on `from`.
impl<'a> vstd::std_specs::convert::FromSpecImpl<&'a str> for GetPlaylist {
    open spec fn obeys_from_spec() -> bool {
        false
    }

    open spec fn from_spec(id: &'a str) -> Self {
        arbitrary()
    }
}

impl<'a> From<&'a str> for GetPlaylist {
    fn from(id: &'a str) -> (r: Self)
        ensures
            r.id@ == id@,
            r.market is None,
    {
        GetPlaylist { id: String::from_str(id), market: None }
    }
}

} // verus!
