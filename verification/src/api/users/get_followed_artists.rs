//! Get the current user's followed artists.

use vstd::prelude::*;
use vstd::string::*;
use crate::api::client::Method;
use crate::api::common::optional;
use crate::api::endpoint::{Body, Endpoint};
use crate::api::error::BodyError;
use crate::api::params::QueryParams;
use crate::model::FollowedArtistsType;
use crate::urls::Pair;

verus! {

/// Get the current user's followed artists.
#[derive(Debug, Clone)]
pub struct GetFollowedArtists {
    /// The ID type: currently only artist is supported.
    pub type_: FollowedArtistsType,
    /// The last artist ID retrieved from the previous request.
    pub after: Option<String>,
}

impl Endpoint for GetFollowedArtists {
    open spec fn spec_method(&self) -> Method {
        Method::Get
    }

    open spec fn spec_endpoint(&self) -> Seq<char> {
        "me/following"@
    }

    open spec fn spec_parameters(&self) -> Seq<Pair> {
        seq![("type"@, self.type_.spec_text())]
            + optional("after"@, match self.after {
            Some(t) => Some(t@),
            None => None,
        })
    }

    open spec fn spec_body(&self) -> Option<Option<Body>> {
        Some(None)
    }

    fn method(&self) -> (r: Method) {
        Method::Get
    }

    fn endpoint(&self) -> (r: String) {
        String::from_str("me/following")
    }

    fn parameters(&self) -> (r: QueryParams) {
        let mut params = QueryParams::new();
        params.push("type", &self.type_);
        params.push_opt("after", match &self.after {
            Some(v) => Some(v),
            None => None,
        });
        assert(params@ =~= self.spec_parameters());
        params
    }

    fn body(&self) -> (r: Result<Option<(&'static str, Vec<u8>)>, BodyError>) {
        Ok(None)
    }
}

impl GetFollowedArtists {
    /// The endpoint for the artists that follow the one with the ID
    /// `after`, or for the first ones.
    pub fn with_after(after: Option<&str>) -> (r: Self)
        ensures
            r.type_ == FollowedArtistsType::Artist,
            match (r.after, after) {
                (Some(a), Some(b)) => a@ == b@,
                (None, None) => true,
                _ => false,
            },
    {
        GetFollowedArtists {
            type_: FollowedArtistsType::Artist,
            after: match after {
                Some(a) => Some(String::from_str(a)),
                None => None,
            },
        }
    }
}

impl Default for GetFollowedArtists {
    fn default() -> (r: Self)
        ensures
            r.type_ == FollowedArtistsType::Artist,
            r.after is None,
    {
        GetFollowedArtists { type_: FollowedArtistsType::Artist, after: None }
    }
}

impl vstd::std_specs::convert::FromSpecImpl<FollowedArtistsType> for GetFollowedArtists {
    open spec fn obeys_from_spec() -> bool {
        true
    }

    open spec fn from_spec(type_: FollowedArtistsType) -> Self {
        GetFollowedArtists { type_, after: None }
    }
}

impl From<FollowedArtistsType> for GetFollowedArtists {
    fn from(type_: FollowedArtistsType) -> (r: Self) {
        GetFollowedArtists { type_, after: None }
    }
}

} // verus!
