//! The client-credentials flow.

use vstd::prelude::*;
use vstd::string::*;
use vstd::utf8::*;
use crate::api::params::FormParams;
use crate::text::{concat, concat3};
use crate::urls::Pair;

verus! {

/// `data` in base 64 with the standard alphabet and padding: what the
/// engine `STANDARD` encodes it as.
pub uninterp spec fn base64_of(data: Seq<u8>) -> Seq<char>;

/// `Engine::encode` of the engine `STANDARD`.
#[verifier::external_body]
fn base64(data: &[u8]) -> (r: String)
    ensures
        r@ == base64_of(data@),
{
    base64::Engine::encode(&base64::engine::general_purpose::STANDARD, data)
}

/// The value of the `Authorization` header for HTTP Basic authentication
/// with the name `client_id` and the password `client_secret`.
pub open spec fn basic_authorization(client_id: Seq<char>, client_secret: Seq<char>) -> Seq<char> {
    "Basic "@ + base64_of(encode_utf8(client_id + ":"@ + client_secret))
}

/// The parameters of the request for a token.
pub open spec fn credentials_pairs() -> Seq<Pair> {
    seq![("grant_type"@, "client_credentials"@)]
}

/// The client-credentials flow: the application identifies itself with its
/// secret and acts for no user. The flow cannot refresh a token.
#[derive(Debug)]
pub struct ClientCredentials {
    client_id: String,
    client_secret: String,
}

impl ClientCredentials {
    /// The client ID of the application.
    pub closed spec fn spec_client_id(&self) -> Seq<char> {
        self.client_id@
    }

    /// The secret of the application.
    pub closed spec fn spec_client_secret(&self) -> Seq<char> {
        self.client_secret@
    }

    /// The flow for an application.
    pub fn new(client_id: &str, client_secret: &str) -> (r: Self)
        ensures
            r.spec_client_id() == client_id@,
            r.spec_client_secret() == client_secret@,
    {
        ClientCredentials {
            client_id: String::from_str(client_id),
            client_secret: String::from_str(client_secret),
        }
    }

    /// The value of the `Authorization` header of the request for a token.
    pub fn authorization_header(&self) -> (r: String)
        ensures
            r@ == basic_authorization(self.spec_client_id(), self.spec_client_secret()),
    {
        let credentials = concat3(self.client_id.as_str(), ":", self.client_secret.as_str());
        let encoded = base64(credentials.as_str().as_bytes());
        concat("Basic ", encoded.as_str())
    }

    /// The parameters of the request for a token.
    pub fn token_params(&self) -> (r: FormParams)
        ensures
            r@ == credentials_pairs(),
    {
        let mut params = FormParams::new();
        params.push("grant_type", &"client_credentials");
        assert(params@ =~= credentials_pairs());
        params
    }
}

} // verus!
