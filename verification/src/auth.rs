//! Types used in the authorization process.
//!
//! Two OAuth 2.0 flows are supported: the authorization-code flow with PKCE,
//! for applications that act for a user, and the client-credentials flow,
//! for server-to-server use without a user.

pub mod client_credentials;
pub mod error;
pub mod pkce;
pub mod scopes;

use vstd::prelude::*;
use vstd::string::*;
use crate::api::client::{headers_view, Method, Request, Response};
use crate::api::error::ApiError;
use crate::api::params::{form_encoded, form_mime, FormParams};
use crate::api::query::{parse_response, typed_outcome};
use crate::auth::error::{check_header_value, is_header_text};
use crate::auth::pkce::refresh_pairs;
use crate::decode::FromJson;
use crate::spotify::RestError;
use crate::text::{decimal, str_eq, usize_to_string};
use crate::urls::{normalized, parse_url, url_text, Pair};

pub use client_credentials::ClientCredentials;
pub use error::{AuthError, AuthResult};
pub use pkce::AuthCodePKCE;

verus! {

/// Where tokens are asked for.
pub const TOKEN_URL: &'static str = "https://accounts.spotify.com/api/token";

/// A strategy to obtain tokens.
pub trait AuthFlow {
    /// The parameters of the request that refreshes a token with
    /// `refresh_token`, or `None` where the flow cannot refresh.
    spec fn spec_refresh(&self, refresh_token: Seq<char>) -> Option<Seq<Pair>>;

    /// The parameters of the request that refreshes a token with
    /// `refresh_token`; the error of an empty refresh token where the flow
    /// cannot refresh.
    fn refresh_token(&self, refresh_token: &str) -> (r: AuthResult<FormParams>)
        ensures
            match self.spec_refresh(refresh_token@) {
                Some(pairs) => r matches Ok(params) && params@ == pairs,
                None => r matches Err(e) && e is EmptyRefreshToken,
            },
    ;
}

impl AuthFlow for AuthCodePKCE {
    open spec fn spec_refresh(&self, refresh_token: Seq<char>) -> Option<Seq<Pair>> {
        Some(refresh_pairs(refresh_token, self.spec_client_id()))
    }

    fn refresh_token(&self, refresh_token: &str) -> (r: AuthResult<FormParams>) {
        Ok(self.refresh_params(refresh_token))
    }
}

impl AuthFlow for ClientCredentials {
    open spec fn spec_refresh(&self, refresh_token: Seq<char>) -> Option<Seq<Pair>> {
        None
    }

    fn refresh_token(&self, refresh_token: &str) -> (r: AuthResult<FormParams>) {
        Err(AuthError::EmptyRefreshToken)
    }
}

/// The headers of `headers` that are not named `authorization`.
pub open spec fn unauthorized(headers: Seq<Pair>) -> Seq<Pair> {
    headers.filter(|h: Pair| h.0 != "authorization"@)
}

/// Whether `r` and `after` are how setting the `Authorization` header to
/// `value` on `before` comes out: where `value` can be the value of a
/// header, it takes the place of any such header, at the end; otherwise
/// the headers stay and the error says so.
pub open spec fn with_authorization(
    before: Seq<Pair>,
    value: Seq<char>,
    r: AuthResult<()>,
    after: Seq<Pair>,
) -> bool {
    if is_header_text(value) {
        r is Ok && after == unauthorized(before).push(("authorization"@, value))
    } else {
        r matches Err(e) && e is HeaderValue && after == before
    }
}

/// Sets the `Authorization` header of a set of headers. The header
/// carries a secret: it is never to be logged.
pub fn set_authorization_header(headers: &mut Vec<(String, String)>, value: &str) -> (r: AuthResult<()>)
    ensures
        with_authorization(headers_view(old(headers)@), value@, r, headers_view(final(headers)@)),
{
    if let Err(e) = check_header_value(value) {
        return Err(AuthError::HeaderValue(e));
    }
    let ghost before = headers_view(headers@);
    let ghost other = |h: Pair| h.0 != "authorization"@;
    let mut kept: Vec<(String, String)> = Vec::new();
    let mut i: usize = 0;
    while i < headers.len()
        invariant
            i <= headers.len(),
            before == headers_view(headers@),
            other == (|h: Pair| h.0 != "authorization"@),
            headers_view(kept@) == before.take(i as int).filter(other),
        decreases headers.len() - i,
    {
        proof {
            assert(before.take(i + 1) =~= before.take(i as int).push(before[i as int]));
            before.take(i as int).lemma_filter_push(before[i as int], other);
        }
        let ghost so_far = headers_view(kept@);
        if !str_eq(headers[i].0.as_str(), "authorization") {
            kept.push((headers[i].0.clone(), headers[i].1.clone()));
            assert(headers_view(kept@) =~= so_far.push(before[i as int]));
        }
        i += 1;
    }
    proof {
        assert(before.take(i as int) =~= before);
    }
    let ghost so_far = headers_view(kept@);
    kept.push((String::from_str("authorization"), String::from_str(value)));
    assert(headers_view(kept@) =~= so_far.push(("authorization"@, value@)));
    *headers = kept;
    Ok(())
}

/// The headers of a request for a token: the authorization where there is
/// one, the media type of the form, and the length of the body.
pub open spec fn token_headers(authorization: Option<Seq<char>>, body: Seq<u8>) -> Seq<Pair> {
    let first: Seq<Pair> = match authorization {
        Some(value) => seq![("authorization"@, value)],
        None => Seq::empty(),
    };
    first + seq![("content-type"@, form_mime()), ("content-length"@, decimal(body.len()))]
}

/// Whether `r` is the request for a token with the parameters `params`
/// and the authorization `authorization`: a `POST` of the form to the token
/// endpoint. In this order, it fails where the token endpoint is no URL,
/// where the authorization cannot be the value of a header, and where the
/// form cannot be written.
pub open spec fn token_request<X>(
    authorization: Option<Seq<char>>,
    params: Seq<Pair>,
    r: Result<Request, ApiError<X>>,
) -> bool {
    match normalized(TOKEN_URL@) {
        None => r matches Err(e) && e is UrlParse,
        Some(text) => if authorization matches Some(value) && !is_header_text(value) {
            r matches Err(ApiError::Auth { source }) && source is HeaderValue
        } else {
            match form_encoded(params) {
                None => r matches Err(e) && e is Body,
                Some(form) => r matches Ok(request) && request.method == Method::Post && url_text(
                    request.url,
                ) == text && headers_view(request.headers@) == token_headers(
                    authorization,
                    vstd::utf8::encode_utf8(form),
                ) && request.body@ == vstd::utf8::encode_utf8(form),
            }
        },
    }
}

/// Builds the request for a token.
pub fn init_http_request_and_data(authorization_header: Option<String>, params: FormParams) -> (r:
    Result<Request, ApiError<RestError>>)
    ensures
        token_request(
            match authorization_header {
                Some(value) => Some(value@),
                None => None,
            },
            params@,
            r,
        ),
{
    let url = match parse_url(TOKEN_URL) {
        Ok(url) => url,
        Err(source) => {
            return Err(ApiError::UrlParse { source });
        },
    };
    let mut headers: Vec<(String, String)> = Vec::new();
    if let Some(value) = &authorization_header {
        proof {
            assert(unauthorized(headers_view(headers@)) =~= Seq::<Pair>::empty()) by {
                reveal(Seq::filter);
            }
        }
        if let Err(source) = set_authorization_header(&mut headers, value.as_str()) {
            return Err(ApiError::Auth { source });
        }
    }
    let ghost pairs = params@;
    let (mime, data) = match params.into_body() {
        Err(source) => {
            return Err(ApiError::Body { source });
        },
        Ok(None) => {
            return Err(ApiError::Body { source: crate::api::error::BodyError::Json });
        },
        Ok(Some(body)) => body,
    };
    let ghost so_far = headers_view(headers@);
    headers.push((String::from_str("content-type"), String::from_str(mime)));
    headers.push((String::from_str("content-length"), usize_to_string(data.len())));
    proof {
        assert(headers_view(headers@) =~= so_far.push(("content-type"@, mime@)).push(
            ("content-length"@, decimal(data@.len())),
        ));
        assert(headers_view(headers@) =~= token_headers(
            match authorization_header {
                Some(value) => Some(value@),
                None => None,
            },
            data@,
        ));
    }
    Ok(Request { method: Method::Post, url, headers, body: data })
}

/// Decodes the answer to a request for a token, or to any other request
/// that the authorization makes.
pub fn parse_http_response<T: FromJson>(response: &Response) -> (r: Result<T, ApiError<RestError>>)
    ensures
        typed_outcome(*response, r),
{
    parse_response::<T, RestError>(response)
}

} // verus!
