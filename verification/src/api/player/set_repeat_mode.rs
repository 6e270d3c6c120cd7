//! Set the repeat mode for the user's playback.

use vstd::prelude::*;
use vstd::string::*;
use crate::api::client::Method;
use crate::api::common::optional;
use crate::api::endpoint::{Body, Endpoint};
use crate::api::error::BodyError;
use crate::api::params::QueryParams;
use crate::model::RepeatState;
use crate::urls::Pair;

verus! {

/// Set the repeat mode for the user's playback.
/// This API only works for users who have Spotify Premium.
/// The order of execution is not guaranteed when you use this API with other Player API endpoints.
#[derive(Debug, Clone)]
pub struct SetRepeatMode {
    /// The id of the device this command is targeting. If not supplied, the user's currently active device is the target.
    pub device_id: Option<String>,
    pub state: RepeatState,
}

impl Endpoint for SetRepeatMode {
    open spec fn spec_method(&self) -> Method {
        Method::Put
    }

    open spec fn spec_endpoint(&self) -> Seq<char> {
        "me/player/repeat"@
    }

    open spec fn spec_parameters(&self) -> Seq<Pair> {
        seq![("state"@, self.state.spec_text())]
            + optional("device_id"@, match self.device_id {
            Some(t) => Some(t@),
            None => None,
        })
    }

    open spec fn spec_body(&self) -> Option<Option<Body>> {
        Some(None)
    }

    fn method(&self) -> (r: Method) {
        Method::Put
    }

    fn endpoint(&self) -> (r: String) {
        String::from_str("me/player/repeat")
    }

    fn parameters(&self) -> (r: QueryParams) {
        let mut params = QueryParams::new();
        params.push("state", &self.state);
        params.push_opt("device_id", match &self.device_id {
            Some(v) => Some(v),
            None => None,
        });
        assert(params@ =~= self.spec_parameters());
        params
    }

    fn body(&self) -> (r: Result<Option<(&'static str, Vec<u8>)>, BodyError>) {
        Ok(None)
    }
}

impl vstd::std_specs::convert::FromSpecImpl<RepeatState> for SetRepeatMode {
    open spec fn obeys_from_spec() -> bool {
        true
    }

    open spec fn from_spec(state: RepeatState) -> Self {
        SetRepeatMode { device_id: None, state }
    }
}

impl From<RepeatState> for SetRepeatMode {
    fn from(state: RepeatState) -> (r: Self) {
        SetRepeatMode { device_id: None, state }
    }
}

} // verus!
