//! The description of one operation of the API.

use vstd::prelude::*;
use vstd::string::*;
use crate::api::client::{Method, RestClient};
use crate::api::error::{ApiError, BodyError};
use crate::api::params::QueryParams;
use crate::urls::Pair;

verus! {

/// URL bases for endpoints.
#[derive(Debug, Clone, Copy, PartialEq, Eq, Structural)]
#[non_exhaustive]
pub enum UrlBase {
    /// An endpoint uses the API v1 URL prefix.
    ApiV1,
}

impl UrlBase {
    /// Get the endpoint for a given URL base.
    pub fn endpoint_for<C: RestClient>(&self, client: &C, endpoint: &str) -> (r: Result<
        url::Url,
        ApiError<C::Error>,
    >)
        ensures
            client.resolves(endpoint@, r),
    {
        match self {
            UrlBase::ApiV1 => client.rest_endpoint(endpoint),
        }
    }
}

/// The body of a request: its media type and its bytes.
pub type Body = (Seq<char>, Seq<u8>);

/// The view of what [`Endpoint::body`] returns.
pub open spec fn body_view(body: Option<(&'static str, Vec<u8>)>) -> Option<Body> {
    match body {
        Some((mime, data)) => Some((mime@, data@)),
        None => None,
    }
}

/// A trait for providing the necessary information for a single REST API
/// endpoint. What it returns depends on the fields of the descriptor alone.
pub trait Endpoint {
    /// The HTTP method to use for the endpoint. An endpoint that is
    /// written outside the verified code leaves it open.
    open spec fn spec_method(&self) -> Method {
        arbitrary()
    }

    /// The path to the endpoint. An endpoint that is written outside the
    /// verified code leaves it open.
    open spec fn spec_endpoint(&self) -> Seq<char> {
        arbitrary()
    }

    /// The query parameters for the endpoint; none unless the endpoint
    /// says otherwise.
    open spec fn spec_parameters(&self) -> Seq<Pair> {
        Seq::empty()
    }

    /// The body for the endpoint: `None` where it cannot be written,
    /// `Some(None)` where there is no body, as is the case unless the
    /// endpoint says otherwise.
    open spec fn spec_body(&self) -> Option<Option<Body>> {
        Some(None)
    }

    /// The HTTP method to use for the endpoint.
    fn method(&self) -> (r: Method)
        ensures
            r == self.spec_method(),
    ;

    /// The path to the endpoint.
    fn endpoint(&self) -> (r: String)
        ensures
            r@ == self.spec_endpoint(),
    ;

    /// The URL base of the API endpoint.
    fn url_base(&self) -> (r: UrlBase) {
        UrlBase::ApiV1
    }

    /// Query parameters for the endpoint.
    fn parameters(&self) -> (r: QueryParams)
        ensures
            r@ == self.spec_parameters(),
    ;

    /// The body for the endpoint.
    ///
    /// Returns the `Content-Type` header for the data as well as the data
    /// itself.
    fn body(&self) -> (r: Result<Option<(&'static str, Vec<u8>)>, BodyError>)
        ensures
            r is Ok <==> self.spec_body() is Some,
            r matches Ok(b) ==> Some(body_view(b)) == self.spec_body(),
    ;
}

/// A trait to indicate that an endpoint is pageable.
pub trait Pageable {
}

impl<'a, E: Endpoint> Endpoint for &'a E {
    open spec fn spec_method(&self) -> Method {
        (**self).spec_method()
    }

    open spec fn spec_endpoint(&self) -> Seq<char> {
        (**self).spec_endpoint()
    }

    open spec fn spec_parameters(&self) -> Seq<Pair> {
        (**self).spec_parameters()
    }

    open spec fn spec_body(&self) -> Option<Option<Body>> {
        (**self).spec_body()
    }

    fn method(&self) -> (r: Method) {
        (**self).method()
    }

    fn endpoint(&self) -> (r: String) {
        (**self).endpoint()
    }

    fn url_base(&self) -> (r: UrlBase) {
        (**self).url_base()
    }

    fn parameters(&self) -> (r: QueryParams) {
        (**self).parameters()
    }

    fn body(&self) -> (r: Result<Option<(&'static str, Vec<u8>)>, BodyError>) {
        (**self).body()
    }
}

impl<'a, E: Pageable> Pageable for &'a E {
}

} // verus!
