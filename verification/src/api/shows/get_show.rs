//! Get Spotify catalog information for a single show identified by its unique Spotify ID.

use vstd::prelude::*;
use vstd::string::*;
use crate::api::client::Method;
use crate::api::common::{optional, BuilderError};
use crate::api::endpoint::{Body, Endpoint};
use crate::api::error::BodyError;
use crate::api::params::QueryParams;
use crate::model::Market;
use crate::text::concat;
use crate::urls::Pair;

verus! {

/// Get Spotify catalog information for a single show identified by its unique Spotify ID.
#[derive(Debug, Clone)]
pub struct GetShow {
    /// The [Spotify ID](https://developer.spotify.com/documentation/web-api/concepts/spotify-uris-ids) for the show.
    pub id: String,
    /// An [ISO 3166-1 alpha-2 country code](https://en.wikipedia.org/wiki/ISO_3166-1_alpha-2).
    /// If a country code is specified, only content that is available in that market will be returned.
    /// If a valid user access token is specified in the request header, the country associated with the user account will take priority over this parameter.
    ///
    /// # Notes
    /// If neither market or user country are provided, the content is considered unavailable for the client.
    /// Users can view the country that is associated with their account in the [account settings](https://www.spotify.com/account/overview/).
    pub market: Option<Market>,
}

impl Endpoint for GetShow {
    open spec fn spec_method(&self) -> Method {
        Method::Get
    }

    open spec fn spec_endpoint(&self) -> Seq<char> {
        "shows/"@ + self.id@
    }

    open spec fn spec_parameters(&self) -> Seq<Pair> {
        optional("market"@, match self.market {
            Some(m) => Some(m@),
            None => None,
        })
    }

    open spec fn spec_body(&self) -> Option<Option<Body>> {
        Some(None)
    }

    fn method(&self) -> (r: Method) {
        Method::Get
    }

    fn endpoint(&self) -> (r: String) {
        concat("shows/", self.id.as_str())
    }

    fn parameters(&self) -> (r: QueryParams) {
        let mut params = QueryParams::new();
        params.push_opt("market", match &self.market {
            Some(v) => Some(v),
            None => None,
        });
        assert(params@ =~= self.spec_parameters());
        params
    }

    fn body(&self) -> (r: Result<Option<(&'static str, Vec<u8>)>, BodyError>) {
        Ok(None)
    }
}

// The conversion makes a new string: what it returns is stated on `from`.
impl<'a> vstd::std_specs::convert::FromSpecImpl<&'a str> for GetShow {
    open spec fn obeys_from_spec() -> bool {
        false
    }

    open spec fn from_spec(id: &'a str) -> Self {
        arbitrary()
    }
}

impl<'a> From<&'a str> for GetShow {
    fn from(id: &'a str) -> (r: Self)
        ensures
            r.id@ == id@,
            r.market is None,
    {
        GetShow { id: String::from_str(id), market: None }
    }
}

/// Builder for [`GetShow`].
#[derive(Debug, Clone)]
pub struct GetShowBuilder {
    pub id: Option<String>,
    pub market: Option<Market>,
}

impl Default for GetShowBuilder {
    fn default() -> (r: Self)
        ensures
            r.id is None && r.market is None,
    {
        GetShowBuilder { id: None, market: None }
    }
}

impl GetShowBuilder {
    /// Sets `id`.
    pub fn id(&mut self, value: &str) -> (ret: &mut Self)
        ensures
            ret.id matches Some(v) && v@ == value@,
            ret.market == old(self).market,
            *final(self) == *final(ret),
    {
        self.id = Some(String::from_str(value));
        self
    }

    /// Sets `market`.
    pub fn market(&mut self, value: Market) -> (ret: &mut Self)
        ensures
            ret.market == Some(value),
            ret.id == old(self).id,
            *final(self) == *final(ret),
    {
        self.market = Some(value);
        self
    }

    /// Builds the endpoint; fails where a required field was not set.
    pub fn build(&self) -> (r: Result<GetShow, BuilderError>)
        ensures
            r is Ok <==> self.id is Some,
            r matches Err(e) ==> e matches BuilderError::UninitializedField(name) && name@ == "id"@,
            r matches Ok(e) ==> {
                &&& e.id@ == self.id->Some_0@
                &&& match (e.market, self.market) {
                    (Some(a), Some(b)) => a@ == b@,
                    (None, None) => true,
                    _ => false,
                }
            },
    {
        let id = match &self.id {
            Some(v) => v.clone(),
            None => {
                return Err(BuilderError::UninitializedField("id"));
            },
        };
        let market = match &self.market {
            Some(v) => Some(v.clone()),
            None => None,
        };
        Ok(GetShow { id, market })
    }
}

impl GetShow {
    /// Create a builder for the endpoint.
    pub fn builder() -> (r: GetShowBuilder)
        ensures
            r.id is None && r.market is None,
    {
        GetShowBuilder::default()
    }
}

} // verus!
