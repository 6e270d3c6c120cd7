//! A query modifier that returns the bytes of the response as they came.

use vstd::prelude::*;
use crate::api::client::{Client, Response};
use crate::api::endpoint::Endpoint;
use crate::api::error::ApiError;
use crate::api::query::{check_status, send, sent, status_outcome, Query};

verus! {

/// A query modifier that returns the raw data from the endpoint.
#[derive(Debug, Clone, Copy, PartialEq, Eq)]
pub struct Raw<E> {
    pub endpoint: E,
}

/// Return the raw data from the endpoint.
///
/// Use this when you need the raw bytes of the response instead of a
/// decoded value.
pub fn raw<E>(endpoint: E) -> (r: Raw<E>)
    ensures
        r.endpoint == endpoint,
{
    Raw { endpoint }
}

/// Whether `r` is what `response` gives as raw data: the error of the
/// verdict on its status, or its body, byte for byte.
pub open spec fn raw_result<X>(response: Response, r: Result<Vec<u8>, ApiError<X>>) -> bool {
    match r {
        Ok(data) => status_outcome::<X>(response, Ok(())) && data@ == response.body@,
        Err(e) => status_outcome::<X>(response, Err(e)),
    }
}

/// Whether `r` is how the raw query of `endpoint` may come out with
/// `client`: one exchange, then [`raw_result`] of the response.
pub open spec fn raw_outcome<E: Endpoint, C: Client>(
    endpoint: &E,
    client: &C,
    r: Result<Vec<u8>, ApiError<C::Error>>,
) -> bool {
    exists|answer: Result<Response, ApiError<C::Error>>|
        #[trigger] sent(endpoint, client, answer) && match answer {
            Err(e) => r matches Err(e2) && e2 == e,
            Ok(response) => raw_result(response, r),
        }
}

impl<E: Endpoint, C: Client> Query<Vec<u8>, C> for Raw<E> {
    open spec fn outcome(&self, client: &C, r: Result<Vec<u8>, ApiError<C::Error>>) -> bool {
        raw_outcome(&self.endpoint, client, r)
    }

    fn query(&self, client: &C) -> (r: Result<Vec<u8>, ApiError<C::Error>>) {
        let answer = send(&self.endpoint, client);
        let ghost seen = answer;
        let r = match answer {
            Err(e) => Err(e),
            Ok(response) => match check_status::<C::Error>(&response) {
                Err(e) => Err(e),
                Ok(()) => Ok(response.body),
            },
        };
        assert(sent(&self.endpoint, client, seen) && match seen {
            Err(e) => r matches Err(e2) && e2 == e,
            Ok(response) => raw_result(response, r),
        });
        r
    }
}

} // verus!
