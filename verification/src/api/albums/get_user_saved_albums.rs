//! Get a list of the albums saved in the current Spotify user's 'Your Music' library.

use vstd::prelude::*;
use vstd::string::*;
use crate::api::client::Method;
use crate::api::common::{optional, BuilderError};
use crate::api::endpoint::{Body, Endpoint, Pageable};
use crate::api::error::BodyError;
use crate::api::params::QueryParams;
use crate::model::Market;
use crate::urls::Pair;

verus! {

/// Get a list of the albums saved in the current Spotify user's 'Your Music' library.
#[derive(Debug, Clone)]
pub struct GetUserSavedAlbums {
    /// An [ISO 3166-1 alpha-2 country code](https://en.wikipedia.org/wiki/ISO_3166-1_alpha-2).
    /// If a country code is specified, only content that is available in that market will be returned.
    /// If a valid user access token is specified in the request header, the country associated with the user account will take priority over this parameter.
    ///
    /// # Notes
    /// If neither market or user country are provided, the content is considered unavailable for the client.
    /// Users can view the country that is associated with their account in the [account settings](https://www.spotify.com/account/overview/).
    pub market: Option<Market>,
}

impl Endpoint for GetUserSavedAlbums {
    open spec fn spec_method(&self) -> Method {
        Method::Get
    }

    open spec fn spec_endpoint(&self) -> Seq<char> {
        "me/albums"@
    }

    open spec fn spec_parameters(&self) -> Seq<Pair> {
        optional("market"@, match self.market {
            Some(m) => Some(m@),
            None => None,
        })
    }

    open spec fn spec_body(&self) -> Option<Option<Body>> {
        Some(None)
    }

    fn method(&self) -> (r: Method) {
        Method::Get
    }

    fn endpoint(&self) -> (r: String) {
        String::from_str("me/albums")
    }

    fn parameters(&self) -> (r: QueryParams) {
        let mut params = QueryParams::new();
        params.push_opt("market", match &self.market {
            Some(v) => Some(v),
            None => None,
        });
        assert(params@ =~= self.spec_parameters());
        params
    }

    fn body(&self) -> (r: Result<Option<(&'static str, Vec<u8>)>, BodyError>) {
        Ok(None)
    }
}

impl Pageable for GetUserSavedAlbums {
}

impl Default for GetUserSavedAlbums {
    fn default() -> (r: Self)
        ensures
            r.market is None,
    {
        GetUserSavedAlbums { market: None }
    }
}

impl vstd::std_specs::convert::FromSpecImpl<Market> for GetUserSavedAlbums {
    open spec fn obeys_from_spec() -> bool {
        true
    }

    open spec fn from_spec(market: Market) -> Self {
        GetUserSavedAlbums { market: Some(market) }
    }
}

impl From<Market> for GetUserSavedAlbums {
    fn from(market: Market) -> (r: Self) {
        GetUserSavedAlbums { market: Some(market) }
    }
}

/// Builder for [`GetUserSavedAlbums`].
#[derive(Debug, Clone)]
pub struct GetUserSavedAlbumsBuilder {
    pub market: Option<Market>,
}

impl Default for GetUserSavedAlbumsBuilder {
    fn default() -> (r: Self)
        ensures
            r.market is None,
    {
        GetUserSavedAlbumsBuilder { market: None }
    }
}

impl GetUserSavedAlbumsBuilder {
    /// Sets `market`.
    pub fn market(&mut self, value: Market) -> (ret: &mut Self)
        ensures
            ret.market == Some(value),
            *final(self) == *final(ret),
    {
        self.market = Some(value);
        self
    }

    /// Builds the endpoint; fails where a required field was not set.
    pub fn build(&self) -> (r: Result<GetUserSavedAlbums, BuilderError>)
        ensures
            r is Ok <==> true,
            r matches Ok(e) ==> {
                &&& match (e.market, self.market) {
                    (Some(a), Some(b)) => a@ == b@,
                    (None, None) => true,
                    _ => false,
                }
            },
    {
        let market = match &self.market {
            Some(v) => Some(v.clone()),
            None => None,
        };
        Ok(GetUserSavedAlbums { market })
    }
}

impl GetUserSavedAlbums {
    /// Create a builder for the endpoint.
    pub fn builder() -> (r: GetUserSavedAlbumsBuilder)
        ensures
            r.market is None,
    {
        GetUserSavedAlbumsBuilder::default()
    }
}

} // verus!
