//! The authorization-code flow with PKCE.
//!
//! The flow goes through three states. Created: the client ID, the
//! redirect URI and the scopes are known. Authorization URL issued: a state
//! and a code verifier have been made and are kept for the callback.
//! Authorized: the code of the callback has been exchanged for a token,
//! which the caller keeps.

use vstd::prelude::*;
use vstd::string::*;
use vstd::utf8::*;
use crate::api::params::FormParams;
use crate::auth::error::{AuthError, AuthResult};
use crate::auth::scopes::{names_of, scope_text, Scope};
use crate::model::id::spec_is_base62;
use crate::text::{joined, str_eq};
use crate::urls::{
    extend_pairs, find_value, first_value, normalized, overflow_error, pairs_cost, pairs_view,
    parse_url, query_of, query_pairs, url_as_str, url_pairs, url_size, url_text, Pair, MAX_URL_SIZE,
};

verus! {

/// Where the user is sent to authorize the application.
pub const AUTHORIZE_URL: &'static str = "https://accounts.spotify.com/authorize";

/// The length of the state that is made for an authorization URL.
pub const STATE_LENGTH: usize = 16;

/// The length of the code verifier that is made for an authorization URL.
pub const VERIFIER_LENGTH: usize = 64;

/// The SHA-256 digest of `data`: what `Sha256::digest` returns.
pub uninterp spec fn sha256_of(data: Seq<u8>) -> Seq<u8>;

/// `data` in base 64 with the URL-safe alphabet and without padding: what
/// the engine `URL_SAFE_NO_PAD` encodes it as.
pub uninterp spec fn base64url_of(data: Seq<u8>) -> Seq<char>;

/// The PKCE code challenge for a code verifier: the SHA-256 digest of the
/// verifier, in URL-safe base 64 without padding.
pub open spec fn challenge_of(verifier: Seq<char>) -> Seq<char> {
    base64url_of(sha256_of(encode_utf8(verifier)))
}

/// `Sha256::digest`.
#[verifier::external_body]
fn sha256(data: &[u8]) -> (r: Vec<u8>)
    ensures
        r@ == sha256_of(data@),
{
    <sha2::Sha256 as sha2::Digest>::digest(data).to_vec()
}

/// `Engine::encode` of the engine `URL_SAFE_NO_PAD`.
#[verifier::external_body]
fn base64url(data: &[u8]) -> (r: String)
    ensures
        r@ == base64url_of(data@),
{
    base64::Engine::encode(&base64::engine::general_purpose::URL_SAFE_NO_PAD, data)
}

/// `length` characters drawn by `rand::thread_rng` from the distribution
/// `Alphanumeric`: ASCII letters and digits, whatever the draw.
#[verifier::external_body]
fn random_token(length: usize) -> (r: String)
    ensures
        r@.len() == length,
        spec_is_base62(r@),
{
    rand::Rng::sample_iter(rand::thread_rng(), &rand::distributions::Alphanumeric).take(length).map(
        char::from,
    ).collect()
}

/// The code challenge for `verifier`.
pub fn code_challenge(verifier: &str) -> (r: String)
    ensures
        r@ == challenge_of(verifier@),
{
    let digest = sha256(verifier.as_bytes());
    base64url(digest.as_slice())
}

/// The parameters of an authorization URL, in order: the client ID, the
/// redirect URI, the scopes where any are asked for, the response type
/// `code`, the state, the code challenge and its method `S256`.
pub open spec fn authorization_pairs(
    client_id: Seq<char>,
    redirect_uri: Seq<char>,
    scopes: Option<Seq<Scope>>,
    state: Seq<char>,
    challenge: Seq<char>,
) -> Seq<Pair> {
    seq![("client_id"@, client_id), ("redirect_uri"@, redirect_uri)] + match scopes {
        Some(list) => seq![("scope"@, joined(names_of(list), seq![' ']))],
        None => Seq::empty(),
    } + seq![
        ("response_type"@, "code"@),
        ("state"@, state),
        ("code_challenge"@, challenge),
        ("code_challenge_method"@, "S256"@),
    ]
}

/// The parameters of the request that exchanges a code for a token.
pub open spec fn exchange_pairs(
    code: Seq<char>,
    redirect_uri: Seq<char>,
    client_id: Seq<char>,
    verifier: Seq<char>,
) -> Seq<Pair> {
    seq![
        ("grant_type"@, "authorization_code"@),
        ("code"@, code),
        ("redirect_uri"@, redirect_uri),
        ("client_id"@, client_id),
        ("code_verifier"@, verifier),
    ]
}

/// The parameters of the request that refreshes a token.
pub open spec fn refresh_pairs(refresh_token: Seq<char>, client_id: Seq<char>) -> Seq<Pair> {
    seq![
        ("grant_type"@, "refresh_token"@),
        ("refresh_token"@, refresh_token),
        ("client_id"@, client_id),
    ]
}

/// Whether `r` is the verdict on the callback URL `url` where `stored` is
/// the state that was issued. In this order: no state was issued; the URL
/// is none; it holds no `code`; its `state`, taken as empty where there is
/// none, is not the one issued. Otherwise the code is returned.
pub open spec fn callback_verdict(stored: Option<Seq<char>>, url: Seq<char>, r: AuthResult<String>) -> bool {
    match stored {
        None => r matches Err(e) && e is NoState,
        Some(expected) => match normalized(url) {
            None => r matches Err(e) && e is UrlParse,
            Some(text) => match first_value(query_of(text), "code"@) {
                None => r matches Err(e) && e is CodeNotFound,
                Some(code) => {
                    let got = match first_value(query_of(text), "state"@) {
                        Some(state) => state,
                        None => Seq::empty(),
                    };
                    if got == expected {
                        r matches Ok(c) && c@ == code
                    } else {
                        r matches Err(AuthError::InvalidState { expected: e, got: g }) && e@
                            == expected && g@ == got
                    }
                },
            },
        },
    }
}

/// Whether `url` is the authorization URL of the service, which `base` is,
/// with `pairs` added to its query.
pub open spec fn is_authorization_url(base: url::Url, url: url::Url, pairs: Seq<Pair>) -> bool {
    &&& normalized(AUTHORIZE_URL@) == Some(url_text(base))
    &&& url_pairs(url) == url_pairs(base) + pairs
    &&& url_size(base) + pairs_cost(pairs) <= MAX_URL_SIZE
}

/// The authorization-code flow with PKCE, for an application that acts for
/// a user and keeps no secret.
#[derive(Debug)]
pub struct AuthCodePKCE {
    client_id: String,
    redirect_uri: String,
    scopes: Option<Vec<Scope>>,
    state: Option<String>,
    code_verifier: Option<String>,
}

impl AuthCodePKCE {
    /// The client ID of the application.
    pub closed spec fn spec_client_id(&self) -> Seq<char> {
        self.client_id@
    }

    /// The URI that the user is sent back to.
    pub closed spec fn spec_redirect_uri(&self) -> Seq<char> {
        self.redirect_uri@
    }

    /// The scopes that are asked for, if any.
    pub closed spec fn spec_scopes(&self) -> Option<Seq<Scope>> {
        match self.scopes {
            Some(list) => Some(list@),
            None => None,
        }
    }

    /// The state that was issued with the last authorization URL, if any.
    pub closed spec fn spec_state(&self) -> Option<Seq<char>> {
        match self.state {
            Some(s) => Some(s@),
            None => None,
        }
    }

    /// The code verifier that was made with the last authorization URL, if
    /// any.
    pub closed spec fn spec_verifier(&self) -> Option<Seq<char>> {
        match self.code_verifier {
            Some(s) => Some(s@),
            None => None,
        }
    }

    /// Whether nothing has been issued yet.
    pub open spec fn is_created(&self) -> bool {
        self.spec_state() is None && self.spec_verifier() is None
    }

    /// The flow in its first state.
    pub fn new(client_id: &str, redirect_uri: &str, scopes: Option<Vec<Scope>>) -> (r: Self)
        ensures
            r.spec_client_id() == client_id@,
            r.spec_redirect_uri() == redirect_uri@,
            r.spec_scopes() == match scopes {
                Some(list) => Some(list@),
                None => None,
            },
            r.is_created(),
    {
        AuthCodePKCE {
            client_id: String::from_str(client_id),
            redirect_uri: String::from_str(redirect_uri),
            scopes,
            state: None,
            code_verifier: None,
        }
    }

    /// Replaces the scopes that are asked for.
    pub fn set_scopes(&mut self, scopes: Option<Vec<Scope>>)
        ensures
            final(self).spec_scopes() == match scopes {
                Some(list) => Some(list@),
                None => None,
            },
            final(self).spec_client_id() == old(self).spec_client_id(),
            final(self).spec_redirect_uri() == old(self).spec_redirect_uri(),
            final(self).spec_state() == old(self).spec_state(),
            final(self).spec_verifier() == old(self).spec_verifier(),
    {
        self.scopes = scopes;
    }

    /// Whether `r` and `after` are how issuing an authorization URL with
    /// `state` and `verifier` comes out. On success the URL is the
    /// authorization URL of the service with [`authorization_pairs`] added
    /// to its query, and the state and the verifier are kept. On failure,
    /// which is a URL error, the flow is as it was.
    pub open spec fn issued(
        before: Self,
        state: Seq<char>,
        verifier: Seq<char>,
        r: AuthResult<String>,
        after: Self,
    ) -> bool {
        let pairs = authorization_pairs(
            before.spec_client_id(),
            before.spec_redirect_uri(),
            before.spec_scopes(),
            state,
            challenge_of(verifier),
        );
        &&& after.spec_client_id() == before.spec_client_id()
        &&& after.spec_redirect_uri() == before.spec_redirect_uri()
        &&& after.spec_scopes() == before.spec_scopes()
        &&& match r {
            Ok(text) => {
                &&& after.spec_state() == Some(state)
                &&& after.spec_verifier() == Some(verifier)
                &&& exists|base: url::Url, url: url::Url|
                    #[trigger] is_authorization_url(base, url, pairs) && text@ == url_text(url)
            },
            Err(e) => {
                &&& e is UrlParse
                &&& after.spec_state() == before.spec_state()
                &&& after.spec_verifier() == before.spec_verifier()
                &&& normalized(AUTHORIZE_URL@) is None || exists|base: url::Url|
                    normalized(AUTHORIZE_URL@) == Some(#[trigger] url_text(base)) && url_size(base)
                        + pairs_cost(pairs) > MAX_URL_SIZE
            },
        }
    }

    /// Issues the authorization URL for the state `state` and the code
    /// verifier `code_verifier`, and keeps both for the callback.
    pub fn issue_authorization_url(&mut self, state: String, code_verifier: String) -> (r:
        AuthResult<String>)
        ensures
            Self::issued(*old(self), state@, code_verifier@, r, *final(self)),
    {
        let ghost before = *self;
        let base = match parse_url(AUTHORIZE_URL) {
            Ok(url) => url,
            Err(source) => {
                return Err(AuthError::UrlParse(source));
            },
        };
        let challenge = code_challenge(code_verifier.as_str());
        let mut pairs: Vec<(String, String)> = Vec::new();
        pairs.push((String::from_str("client_id"), self.client_id.clone()));
        pairs.push((String::from_str("redirect_uri"), self.redirect_uri.clone()));
        if let Some(scopes) = &self.scopes {
            pairs.push((String::from_str("scope"), scope_text(scopes)));
        }
        pairs.push((String::from_str("response_type"), String::from_str("code")));
        pairs.push((String::from_str("state"), state.clone()));
        pairs.push((String::from_str("code_challenge"), challenge));
        pairs.push((String::from_str("code_challenge_method"), String::from_str("S256")));
        let ghost wanted = authorization_pairs(
            before.spec_client_id(),
            before.spec_redirect_uri(),
            before.spec_scopes(),
            state@,
            challenge_of(code_verifier@),
        );
        assert(pairs_view(pairs@) =~= wanted);
        let mut url = crate::urls::clone_url(&base);
        if !extend_pairs(&mut url, &pairs) {
            assert(normalized(AUTHORIZE_URL@) == Some(url_text(base)) && url_size(base) + pairs_cost(
                wanted,
            ) > MAX_URL_SIZE);
            return Err(AuthError::UrlParse(overflow_error()));
        }
        let text = String::from_str(url_as_str(&url));
        self.state = Some(state);
        self.code_verifier = Some(code_verifier);
        assert(is_authorization_url(base, url, wanted) && text@ == url_text(url));
        Ok(text)
    }

    /// Constructs the full URL for user authorization.
    ///
    /// A fresh random state and a fresh random code verifier are made and
    /// kept for the callback; the user is to be sent to the URL.
    pub fn user_authorization_url(&mut self) -> (r: AuthResult<String>)
        ensures
            exists|state: Seq<char>, verifier: Seq<char>|
                state.len() == STATE_LENGTH && spec_is_base62(state) && verifier.len()
                    == VERIFIER_LENGTH && spec_is_base62(verifier) && #[trigger] Self::issued(
                    *old(self),
                    state,
                    verifier,
                    r,
                    *final(self),
                ),
    {
        let state = random_token(STATE_LENGTH);
        let verifier = random_token(VERIFIER_LENGTH);
        let ghost s = state@;
        let ghost v = verifier@;
        let r = self.issue_authorization_url(state, verifier);
        assert(Self::issued(*old(self), s, v, r, *self));
        r
    }

    /// Verifies the authorization code and state returned in the callback
    /// URL, and gives the code.
    ///
    /// # Errors
    /// * `AuthError::NoState` - no authorization URL has been issued.
    /// * `AuthError::UrlParse` - `url` is no URL.
    /// * `AuthError::CodeNotFound` - the `code` parameter is missing.
    /// * `AuthError::InvalidState` - the `state` parameter is missing or
    ///   is not the one that was issued.
    pub fn verify_authorization_code(&self, url: &str) -> (r: AuthResult<String>)
        ensures
            callback_verdict(self.spec_state(), url@, r),
    {
        let expected = match &self.state {
            Some(state) => state,
            None => {
                return Err(AuthError::NoState);
            },
        };
        let parsed = match parse_url(url) {
            Ok(parsed) => parsed,
            Err(source) => {
                return Err(AuthError::UrlParse(source));
            },
        };
        let pairs = query_pairs(&parsed);
        let code = match find_value(&pairs, "code") {
            Some(code) => code,
            None => {
                return Err(AuthError::CodeNotFound);
            },
        };
        let got = match find_value(&pairs, "state") {
            Some(state) => state,
            None => "",
        };
        proof {
            reveal_strlit("");
            assert(""@ =~= Seq::<char>::empty());
        }
        if str_eq(got, expected.as_str()) {
            Ok(String::from_str(code))
        } else {
            Err(AuthError::InvalidState { expected: expected.clone(), got: String::from_str(got) })
        }
    }

    /// The parameters of the request that exchanges `code` for a token;
    /// fails where no code verifier is kept.
    pub fn token_params(&self, code: &str) -> (r: AuthResult<FormParams>)
        ensures
            match self.spec_verifier() {
                Some(verifier) => r matches Ok(params) && params@ == exchange_pairs(
                    code@,
                    self.spec_redirect_uri(),
                    self.spec_client_id(),
                    verifier,
                ),
                None => r matches Err(e) && e is NoCodeVerifier,
            },
    {
        let verifier = match &self.code_verifier {
            Some(verifier) => verifier,
            None => {
                return Err(AuthError::NoCodeVerifier);
            },
        };
        let mut params = FormParams::new();
        params.push("grant_type", &"authorization_code");
        params.push("code", &code);
        params.push("redirect_uri", &self.redirect_uri);
        params.push("client_id", &self.client_id);
        params.push("code_verifier", verifier);
        assert(params@ =~= exchange_pairs(
            code@,
            self.spec_redirect_uri(),
            self.spec_client_id(),
            verifier@,
        ));
        Ok(params)
    }

    /// The parameters of the request that exchanges the code of the
    /// callback URL `url` for a token.
    pub fn token_params_from_redirect_url(&self, url: &str) -> (r: AuthResult<FormParams>)
        ensures
            exists|code: AuthResult<String>|
                #[trigger] callback_verdict(self.spec_state(), url@, code) && match code {
                    Err(e) => r matches Err(e2) && e2 == e,
                    Ok(c) => match self.spec_verifier() {
                        Some(verifier) => r matches Ok(params) && params@ == exchange_pairs(
                            c@,
                            self.spec_redirect_uri(),
                            self.spec_client_id(),
                            verifier,
                        ),
                        None => r matches Err(e) && e is NoCodeVerifier,
                    },
                },
    {
        let code = self.verify_authorization_code(url);
        let ghost seen = code;
        let r = match code {
            Err(e) => Err(e),
            Ok(c) => self.token_params(c.as_str()),
        };
        assert(callback_verdict(self.spec_state(), url@, seen));
        r
    }

    /// The parameters of the request that refreshes a token.
    pub fn refresh_params(&self, refresh_token: &str) -> (r: FormParams)
        ensures
            r@ == refresh_pairs(refresh_token@, self.spec_client_id()),
    {
        let mut params = FormParams::new();
        params.push("grant_type", &"refresh_token");
        params.push("refresh_token", &refresh_token);
        params.push("client_id", &self.client_id);
        assert(params@ =~= refresh_pairs(refresh_token@, self.spec_client_id()));
        params
    }
}

/// Without an authorization URL, no callback is accepted: the verdict is
/// that there is no state.
pub proof fn lemma_callback_needs_state(url: Seq<char>, r: AuthResult<String>)
    requires
        callback_verdict(None, url, r),
    ensures
        r matches Err(e) && e is NoState,
{
}

/// A callback whose state is not the one issued is refused with both
/// states; one whose state is the one issued gives its code.
pub proof fn lemma_callback_state(stored: Seq<char>, url: Seq<char>, r: AuthResult<String>)
    requires
        callback_verdict(Some(stored), url, r),
        normalized(url) is Some,
        first_value(query_of(normalized(url).unwrap()), "code"@) is Some,
    ensures
        first_value(query_of(normalized(url).unwrap()), "state"@) == Some(stored) ==> (r matches Ok(
            code,
        ) && Some(code@) == first_value(query_of(normalized(url).unwrap()), "code"@)),
        first_value(query_of(normalized(url).unwrap()), "state"@) matches Some(sent) ==> sent
            != stored ==> (r matches Err(AuthError::InvalidState { expected, got }) && expected@
            == stored && got@ == sent),
{
}

} // verus!
