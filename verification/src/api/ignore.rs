//! A query modifier that discards what the endpoint returns.

use vstd::prelude::*;
use crate::api::client::{Client, Response};
use crate::api::endpoint::Endpoint;
use crate::api::error::ApiError;
use crate::api::query::{check_status, send, sent, status_outcome, Query};

verus! {

/// A query modifier that ignores the data returned from an endpoint.
#[derive(Debug, Clone, Copy, PartialEq, Eq)]
pub struct Ignore<E> {
    pub endpoint: E,
}

/// Ignore the resulting data from an endpoint.
///
/// Use this when you only care about whether the request succeeded, not the
/// response body (e.g., for PUT/DELETE operations).
pub fn ignore<E>(endpoint: E) -> (r: Ignore<E>)
    ensures
        r.endpoint == endpoint,
{
    Ignore { endpoint }
}

/// Whether `r` is how ignoring `endpoint` may come out with `client`: one
/// exchange, then the verdict on the status of the response.
pub open spec fn ignore_outcome<E: Endpoint, C: Client>(
    endpoint: &E,
    client: &C,
    r: Result<(), ApiError<C::Error>>,
) -> bool {
    exists|answer: Result<Response, ApiError<C::Error>>|
        #[trigger] sent(endpoint, client, answer) && match answer {
            Err(e) => r matches Err(e2) && e2 == e,
            Ok(response) => status_outcome(response, r),
        }
}

impl<E: Endpoint, C: Client> Query<(), C> for Ignore<E> {
    open spec fn outcome(&self, client: &C, r: Result<(), ApiError<C::Error>>) -> bool {
        ignore_outcome(&self.endpoint, client, r)
    }

    fn query(&self, client: &C) -> (r: Result<(), ApiError<C::Error>>) {
        let answer = send(&self.endpoint, client);
        let ghost seen = answer;
        let r = match answer {
            Err(e) => Err(e),
            Ok(response) => check_status::<C::Error>(&response),
        };
        assert(sent(&self.endpoint, client, seen) && match seen {
            Err(e) => r matches Err(e2) && e2 == e,
            Ok(response) => status_outcome(response, r),
        });
        r
    }
}

} // verus!
