//! The state of a client of the service: the authorization flow and the
//! token, and what is decided about them before each request.
//!
//! The transport that sends the requests is not part of the library. A
//! client owns a [`Session`], asks it before each request whether the token
//! has to be refreshed first, lets it put the `Authorization` header on the
//! request, and hands it each token that it obtains.

use vstd::prelude::*;
use vstd::string::*;
use crate::api::client::headers_view;
use crate::api::error::{ApiError, DecodeError};
use crate::auth::client_credentials::ClientCredentials;
use crate::auth::error::{AuthError, AuthResult};
use crate::auth::pkce::AuthCodePKCE;
use crate::auth::scopes::{has_scope, Scope};
use crate::auth::{set_authorization_header, with_authorization};
use crate::json::json_text;
use crate::model::token::Token;
use crate::text::{concat, split_whitespace, string_of_bytes, views, words};
use crate::time::Timestamp;
use crate::urls::{join_url, joined_text, normalized, parse_url, url_text};

verus! {

/// `reqwest::Error`: a failure of the transport.
#[verifier::external_type_specification]
#[verifier::external_body]
pub struct ExReqwestError(reqwest::Error);

/// `http::Error`: a request or a response that could not be put together.
#[verifier::external_type_specification]
#[verifier::external_body]
pub struct ExHttpError(http::Error);

/// The base of the API, to which the path of an endpoint is added.
pub const BASE_API_URL: &'static str = "https://api.spotify.com/v1/";

/// Errors that can occur during communication with the Spotify API.
#[derive(Debug)]
#[non_exhaustive]
pub enum RestError {
    /// The `Authorization` header could not be set.
    AuthError(AuthError),
    /// The request did not reach the service, or its answer did not arrive.
    Communication(reqwest::Error),
    /// The request or the response could not be put together.
    Http(http::Error),
}

/// Errors that can occur while interacting with the Spotify API.
#[derive(Debug)]
#[non_exhaustive]
pub enum SpotifyError {
    /// A URL failed to parse.
    UrlParse(url::ParseError),
    /// The `Authorization` header could not be set.
    AuthError(AuthError),
    /// The request did not reach the service, or its answer did not arrive.
    Communication(reqwest::Error),
    /// The service answered with a status that is no success.
    Http { status: u16 },
    /// The service did not answer.
    NoResponse,
    /// A value could not be read or written as the type named `typename`.
    DataType { source: DecodeError, typename: &'static str },
    /// A query failed.
    Api(ApiError<RestError>),
}

impl vstd::std_specs::convert::FromSpecImpl<AuthError> for RestError {
    open spec fn obeys_from_spec() -> bool {
        true
    }

    open spec fn from_spec(source: AuthError) -> Self {
        RestError::AuthError(source)
    }
}

impl From<AuthError> for RestError {
    fn from(source: AuthError) -> (r: Self) {
        RestError::AuthError(source)
    }
}

impl vstd::std_specs::convert::FromSpecImpl<reqwest::Error> for RestError {
    open spec fn obeys_from_spec() -> bool {
        true
    }

    open spec fn from_spec(source: reqwest::Error) -> Self {
        RestError::Communication(source)
    }
}

impl From<reqwest::Error> for RestError {
    fn from(source: reqwest::Error) -> (r: Self) {
        RestError::Communication(source)
    }
}

impl vstd::std_specs::convert::FromSpecImpl<http::Error> for RestError {
    open spec fn obeys_from_spec() -> bool {
        true
    }

    open spec fn from_spec(source: http::Error) -> Self {
        RestError::Http(source)
    }
}

impl From<http::Error> for RestError {
    fn from(source: http::Error) -> (r: Self) {
        RestError::Http(source)
    }
}

impl vstd::std_specs::convert::FromSpecImpl<url::ParseError> for SpotifyError {
    open spec fn obeys_from_spec() -> bool {
        true
    }

    open spec fn from_spec(source: url::ParseError) -> Self {
        SpotifyError::UrlParse(source)
    }
}

impl From<url::ParseError> for SpotifyError {
    fn from(source: url::ParseError) -> (r: Self) {
        SpotifyError::UrlParse(source)
    }
}

impl vstd::std_specs::convert::FromSpecImpl<AuthError> for SpotifyError {
    open spec fn obeys_from_spec() -> bool {
        true
    }

    open spec fn from_spec(source: AuthError) -> Self {
        SpotifyError::AuthError(source)
    }
}

impl From<AuthError> for SpotifyError {
    fn from(source: AuthError) -> (r: Self) {
        SpotifyError::AuthError(source)
    }
}

impl vstd::std_specs::convert::FromSpecImpl<reqwest::Error> for SpotifyError {
    open spec fn obeys_from_spec() -> bool {
        true
    }

    open spec fn from_spec(source: reqwest::Error) -> Self {
        SpotifyError::Communication(source)
    }
}

impl From<reqwest::Error> for SpotifyError {
    fn from(source: reqwest::Error) -> (r: Self) {
        SpotifyError::Communication(source)
    }
}

impl vstd::std_specs::convert::FromSpecImpl<ApiError<RestError>> for SpotifyError {
    open spec fn obeys_from_spec() -> bool {
        true
    }

    open spec fn from_spec(source: ApiError<RestError>) -> Self {
        SpotifyError::Api(source)
    }
}

impl From<ApiError<RestError>> for SpotifyError {
    fn from(source: ApiError<RestError>) -> (r: Self) {
        SpotifyError::Api(source)
    }
}

impl SpotifyError {
    /// The error for a value that could not be read or written as the type
    /// named `typename`.
    pub fn data_type(source: DecodeError, typename: &'static str) -> (r: Self)
        ensures
            r == (SpotifyError::DataType { source, typename }),
    {
        SpotifyError::DataType { source, typename }
    }
}

/// A specialized `Result` type for Spotify API operations.
pub type SpotifyResult<T> = Result<T, SpotifyError>;

/// The token `token` with the expiry that it has when it is obtained at
/// `now`: `expires_in` seconds later.
pub open spec fn stamped(token: Token, now: Timestamp) -> Token {
    Token { expires_at: now.spec_plus_seconds(token.expires_in), ..token }
}

/// What is to be done about the token before a request at the time `now`:
/// an error where there is no token; a refresh with the refresh token where
/// the token has expired and has one; else nothing.
pub open spec fn refresh_plan(token: Option<Token>, now: Timestamp, r: Result<Option<String>, AuthError>) -> bool {
    match token {
        None => r matches Err(e) && e is EmptyAccessToken,
        Some(t) => r matches Ok(plan) && if t.spec_is_expired_at(now) {
            match (plan, t.refresh_token) {
                (Some(a), Some(b)) => a@ == b@,
                (None, None) => true,
                _ => false,
            }
        } else {
            plan is None
        },
    }
}

/// The value of the `Authorization` header for an access token.
pub open spec fn bearer(access_token: Seq<char>) -> Seq<char> {
    "Bearer "@ + access_token
}

/// The scopes that the names in `names` stand for, each once, in the order
/// of their first mention; names of no scope are passed over.
pub open spec fn scopes_named(names: Seq<Seq<char>>) -> Seq<Scope>
    decreases names.len(),
{
    if names.len() == 0 {
        Seq::empty()
    } else {
        let before = scopes_named(names.drop_last());
        match Scope::named(names.last()) {
            Some(scope) if !before.contains(scope) => before.push(scope),
            _ => before,
        }
    }
}

/// The scopes that a token grants: those named in its `scope`, none where
/// it has none.
pub open spec fn granted(token: Token) -> Seq<Scope> {
    match token.scope {
        Some(text) => scopes_named(words(text@)),
        None => Seq::empty(),
    }
}

/// The scopes that the names in `names` stand for.
pub fn scopes_of(names: &Vec<String>) -> (r: Vec<Scope>)
    ensures
        r@ == scopes_named(views(names@)),
{
    let ghost all = views(names@);
    let mut out: Vec<Scope> = Vec::new();
    let mut i: usize = 0;
    proof {
        assert(all.take(0) =~= Seq::<Seq<char>>::empty());
    }
    while i < names.len()
        invariant
            i <= names.len(),
            all == views(names@),
            out@ == scopes_named(all.take(i as int)),
        decreases names.len() - i,
    {
        proof {
            assert(all.take(i + 1).drop_last() =~= all.take(i as int));
            assert(all.take(i + 1).last() == names@[i as int]@);
        }
        if let Some(scope) = Scope::try_from(names[i].as_str()) {
            if !has_scope(&out, scope) {
                out.push(scope);
            }
        }
        i += 1;
    }
    proof {
        assert(all.take(i as int) =~= all);
    }
    out
}

/// The state of a client: its authorization flow and its token.
#[derive(Debug)]
pub struct Session<A> {
    /// The authentication flow to use for API calls.
    pub auth: A,
    /// The current access token, if available.
    pub token: Option<Token>,
}

impl<A> Session<A> {
    /// A session without a token.
    pub fn new(auth: A) -> (r: Self)
        ensures
            r.auth == auth,
            r.token is None,
    {
        Session { auth, token: None }
    }

    /// Keeps `token`, which was obtained at `now`: its expiry is set to
    /// `expires_in` seconds after `now`, and to none where that time cannot
    /// be held.
    pub fn set_token(&mut self, token: Token, now: Timestamp)
        ensures
            final(self).auth == old(self).auth,
            final(self).token == Some(stamped(token, now)),
    {
        let mut token = token;
        token.expires_at = now.plus_seconds(token.expires_in);
        self.token = Some(token);
    }

    /// Decides what is to be done about the token before a request at the
    /// time `now`. `Ok(Some(refresh_token))` asks for a refresh before the
    /// request is sent.
    pub fn refresh_before_request(&self, now: Timestamp) -> (r: Result<Option<String>, AuthError>)
        ensures
            refresh_plan(self.token, now, r),
    {
        match &self.token {
            None => Err(AuthError::EmptyAccessToken),
            Some(token) => {
                if token.is_expired_at(now) {
                    Ok(
                        match &token.refresh_token {
                            Some(t) => Some(t.clone()),
                            None => None,
                        },
                    )
                } else {
                    Ok(None)
                }
            },
        }
    }

    /// The refresh token to refresh with on demand: an error where there is
    /// no token, or where the token has no refresh token.
    pub fn refresh_token(&self) -> (r: AuthResult<String>)
        ensures
            match self.token {
                None => r matches Err(e) && e is EmptyAccessToken,
                Some(token) => match token.refresh_token {
                    None => r matches Err(e) && e is EmptyRefreshToken,
                    Some(t) => r matches Ok(s) && s@ == t@,
                },
            },
    {
        match &self.token {
            None => Err(AuthError::EmptyAccessToken),
            Some(token) => match &token.refresh_token {
                None => Err(AuthError::EmptyRefreshToken),
                Some(t) => Ok(t.clone()),
            },
        }
    }

    /// Adds the `Authorization` header for the token to a set of headers,
    /// in place of any that is there.
    ///
    /// Fails where there is no token, or where the token cannot be the
    /// value of a header; the headers are then as they were. The header
    /// carries the token: it is never to be logged.
    pub fn set_header(&self, headers: &mut Vec<(String, String)>) -> (r: AuthResult<()>)
        ensures
            match self.token {
                None => r matches Err(e) && e is EmptyAccessToken && *final(headers) == *old(headers),
                Some(token) => with_authorization(
                    headers_view(old(headers)@),
                    bearer(token.access_token@),
                    r,
                    headers_view(final(headers)@),
                ),
            },
    {
        match &self.token {
            None => Err(AuthError::EmptyAccessToken),
            Some(token) => {
                let value = concat("Bearer ", token.access_token.as_str());
                set_authorization_header(headers, value.as_str())
            },
        }
    }

    /// The token as a JSON document; `Ok(None)` where there is none.
    pub fn token_to_string(&self) -> (r: SpotifyResult<Option<String>>)
        ensures
            self.token is None ==> r matches Ok(None),
            self.token matches Some(token) ==> match json_text(
                crate::json::JsonValue::Object(token.spec_members()),
            ) {
                Some(bytes) if vstd::utf8::valid_utf8(bytes) => r matches Ok(Some(text))
                    && vstd::utf8::encode_utf8(text@) == bytes,
                _ => r matches Err(SpotifyError::DataType { source, typename }) && source
                    == DecodeError::Unwritable && typename@ == "Token"@,
            },
    {
        let token = match &self.token {
            None => {
                return Ok(None);
            },
            Some(token) => token,
        };
        let failed = SpotifyError::data_type(DecodeError::Unwritable, "Token");
        match token.to_json().to_vec() {
            None => Err(failed),
            Some(bytes) => match string_of_bytes(bytes) {
                Some(text) => Ok(Some(text)),
                None => Err(failed),
            },
        }
    }
}

/// Whether `r` is how the client resolves the path `endpoint`: against the
/// base of the API.
pub open spec fn api_endpoint<X>(endpoint: Seq<char>, r: Result<url::Url, ApiError<X>>) -> bool {
    match normalized(BASE_API_URL@) {
        None => r matches Err(e) && e is UrlParse,
        Some(base) => match joined_text(base, endpoint) {
            None => r matches Err(e) && e is UrlParse,
            Some(text) => r matches Ok(url) && url_text(url) == text,
        },
    }
}

/// The URL of the path `endpoint` under the base of the API.
pub fn rest_endpoint<X>(endpoint: &str) -> (r: Result<url::Url, ApiError<X>>)
    ensures
        api_endpoint(endpoint@, r),
{
    let base = match parse_url(BASE_API_URL) {
        Ok(base) => base,
        Err(source) => {
            return Err(ApiError::UrlParse { source });
        },
    };
    match join_url(&base, endpoint) {
        Ok(url) => Ok(url),
        Err(source) => Err(ApiError::UrlParse { source }),
    }
}

impl Session<AuthCodePKCE> {
    /// Sets the access token and returns the updated session.
    ///
    /// The scopes in the token override the scopes of the flow.
    pub fn with_token(self, token: Token) -> (r: Self)
        ensures
            r.token == Some(token),
            r.auth.spec_scopes() == Some(granted(token)),
            r.auth.spec_client_id() == self.auth.spec_client_id(),
            r.auth.spec_redirect_uri() == self.auth.spec_redirect_uri(),
            r.auth.spec_state() == self.auth.spec_state(),
            r.auth.spec_verifier() == self.auth.spec_verifier(),
    {
        let scopes = match &token.scope {
            Some(text) => scopes_of(&split_whitespace(text.as_str())),
            None => Vec::new(),
        };
        let mut session = self;
        session.auth.set_scopes(Some(scopes));
        session.token = Some(token);
        session
    }
}

impl Session<ClientCredentials> {
    /// Sets the access token and returns the updated session.
    ///
    /// The refresh token and the scope of the token are dropped: the flow
    /// has neither. Once the token has expired, requests fail.
    pub fn with_token(self, token: Token) -> (r: Self)
        ensures
            r.auth == self.auth,
            r.token == Some(Token { refresh_token: None, scope: None, ..token }),
    {
        let mut token = token;
        token.refresh_token = None;
        token.scope = None;
        Session { auth: self.auth, token: Some(token) }
    }
}

/// A token whose expiry lies before `now` asks for a refresh with its
/// refresh token before the next request; one whose expiry does not lie
/// before `now` asks for none.
pub proof fn lemma_stale_token_refreshes(
    token: Token,
    now: Timestamp,
    r: Result<Option<String>, AuthError>,
)
    requires
        token.expires_at is Some,
        refresh_plan(Some(token), now, r),
    ensures
        now.is_after(token.expires_at.unwrap()) && token.refresh_token is Some ==> (r matches Ok(
            Some(refresh),
        ) && refresh@ == token.refresh_token.unwrap()@),
        !now.is_after(token.expires_at.unwrap()) ==> r matches Ok(None),
{
}

} // verus!
