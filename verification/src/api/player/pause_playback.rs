//! Pause playback on the user's account.

use vstd::prelude::*;
use vstd::string::*;
use crate::api::client::Method;
use crate::api::common::optional;
use crate::api::endpoint::{Body, Endpoint};
use crate::api::error::BodyError;
use crate::api::params::QueryParams;
use crate::urls::Pair;

verus! {

/// Pause playback on the user's account.
/// This API only works for users who have Spotify Premium.
/// The order of execution is not guaranteed when you use this API with other Player API endpoints.
#[derive(Debug, Clone)]
pub struct PausePlayback {
    /// The id of the device this command is targeting. If not supplied, the user's currently active device is the target.
    pub device_id: Option<String>,
}

impl Endpoint for PausePlayback {
    open spec fn spec_method(&self) -> Method {
        Method::Put
    }

    open spec fn spec_endpoint(&self) -> Seq<char> {
        "me/player/pause"@
    }

    open spec fn spec_parameters(&self) -> Seq<Pair> {
        optional("device_id"@, match self.device_id {
            Some(t) => Some(t@),
            None => None,
        })
    }

    open spec fn spec_body(&self) -> Option<Option<Body>> {
        Some(None)
    }

    fn method(&self) -> (r: Method) {
        Method::Put
    }

    fn endpoint(&self) -> (r: String) {
        String::from_str("me/player/pause")
    }

    fn parameters(&self) -> (r: QueryParams) {
        let mut params = QueryParams::new();
        params.push_opt("device_id", match &self.device_id {
            Some(v) => Some(v),
            None => None,
        });
        assert(params@ =~= self.spec_parameters());
        params
    }

    fn body(&self) -> (r: Result<Option<(&'static str, Vec<u8>)>, BodyError>) {
        Ok(None)
    }
}

impl Default for PausePlayback {
    fn default() -> (r: Self)
        ensures
            r.device_id is None,
    {
        PausePlayback { device_id: None }
    }
}

// The conversion makes a new string: what it returns is stated on `from`.
impl<'a> vstd::std_specs::convert::FromSpecImpl<&'a str> for PausePlayback {
    open spec fn obeys_from_spec() -> bool {
        false
    }

    open spec fn from_spec(device_id: &'a str) -> Self {
        arbitrary()
    }
}

impl<'a> From<&'a str> for PausePlayback {
    fn from(device_id: &'a str) -> (r: Self)
        ensures
            r.device_id matches Some(d) && d@ == device_id@,
    {
        PausePlayback { device_id: Some(String::from_str(device_id)) }
    }
}

} // verus!
