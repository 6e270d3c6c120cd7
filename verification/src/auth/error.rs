//! Errors of the authorization process.

use vstd::prelude::*;
use vstd::string::*;
use crate::text::concat;

verus! {

/// `http::header::InvalidHeaderValue`: the error for a string that cannot
/// be the value of a header.
#[verifier::external_type_specification]
#[verifier::external_body]
pub struct ExInvalidHeaderValue(http::header::InvalidHeaderValue);

/// A specialized `Result` type for authorization operations.
pub type AuthResult<T> = Result<T, AuthError>;

/// Errors that can occur during the authorization process.
#[derive(Debug)]
#[non_exhaustive]
pub enum AuthError {
    /// A string cannot be the value of an HTTP header.
    HeaderValue(http::header::InvalidHeaderValue),
    /// A URL failed to parse.
    UrlParse(url::ParseError),
    /// The callback URL holds no `code` parameter.
    CodeNotFound,
    /// The `state` parameter of the callback URL is not the one that was
    /// issued with the authorization URL.
    InvalidState { expected: String, got: String },
    /// No authorization URL has been generated yet, so no state is stored.
    NoState,
    /// No authorization URL has been generated yet, so no code verifier is
    /// stored.
    NoCodeVerifier,
    /// No access token is held.
    EmptyAccessToken,
    /// No refresh token is held, or the flow does not support refreshing.
    EmptyRefreshToken,
}

/// Whether `text` can be the value of an HTTP header: no control character
/// but the tab.
pub open spec fn is_header_text(text: Seq<char>) -> bool {
    forall|i: int|
        0 <= i < text.len() ==> ((#[trigger] text[i]) as u32 >= 32 && text[i] as u32 != 127)
            || text[i] == '\t'
}

/// `HeaderValue::from_str`, of which only the verdict is kept: it accepts a
/// string exactly when every byte is 32 or more and not 127, or a tab.
#[verifier::external_body]
pub(crate) fn check_header_value(value: &str) -> (r: Result<(), http::header::InvalidHeaderValue>)
    ensures
        r is Ok <==> is_header_text(value@),
{
    http::header::HeaderValue::from_str(value).map(|_| ())
}

impl AuthError {
    /// The description of the error.
    pub open spec fn spec_text(&self) -> Seq<char> {
        match self {
            AuthError::HeaderValue(_) => "header value error"@,
            AuthError::UrlParse(_) => "failed to parse url"@,
            AuthError::CodeNotFound => "authorization code not found"@,
            AuthError::InvalidState { expected, got } => "invalid state parameter: expected "@
                + expected@ + " got "@ + got@,
            AuthError::NoState => "AuthCodePKCE's state is None. Make sure to generate a user authorization URL by calling user_authorization_url()"@,
            AuthError::NoCodeVerifier => "AuthCodePKCE's code_verifier is None. Make sure to generate a code verifier by calling user_authorization_url()"@,
            AuthError::EmptyAccessToken => "access token is empty"@,
            AuthError::EmptyRefreshToken => "refresh token is empty"@,
        }
    }

    /// A description of the error for people.
    pub fn to_string(&self) -> (r: String)
        ensures
            r@ == self.spec_text(),
    {
        match self {
            AuthError::HeaderValue(_) => String::from_str("header value error"),
            AuthError::UrlParse(_) => String::from_str("failed to parse url"),
            AuthError::CodeNotFound => String::from_str("authorization code not found"),
            AuthError::InvalidState { expected, got } => {
                let mut out = concat("invalid state parameter: expected ", expected.as_str());
                out.append(" got ");
                out.append(got.as_str());
                out
            },
            AuthError::NoState => String::from_str(
                "AuthCodePKCE's state is None. Make sure to generate a user authorization URL by calling user_authorization_url()",
            ),
            AuthError::NoCodeVerifier => String::from_str(
                "AuthCodePKCE's code_verifier is None. Make sure to generate a code verifier by calling user_authorization_url()",
            ),
            AuthError::EmptyAccessToken => String::from_str("access token is empty"),
            AuthError::EmptyRefreshToken => String::from_str("refresh token is empty"),
        }
    }
}

impl vstd::std_specs::convert::FromSpecImpl<http::header::InvalidHeaderValue> for AuthError {
    open spec fn obeys_from_spec() -> bool {
        true
    }

    open spec fn from_spec(source: http::header::InvalidHeaderValue) -> Self {
        AuthError::HeaderValue(source)
    }
}

impl From<http::header::InvalidHeaderValue> for AuthError {
    fn from(source: http::header::InvalidHeaderValue) -> (r: Self) {
        AuthError::HeaderValue(source)
    }
}

impl vstd::std_specs::convert::FromSpecImpl<url::ParseError> for AuthError {
    open spec fn obeys_from_spec() -> bool {
        true
    }

    open spec fn from_spec(source: url::ParseError) -> Self {
        AuthError::UrlParse(source)
    }
}

impl From<url::ParseError> for AuthError {
    fn from(source: url::ParseError) -> (r: Self) {
        AuthError::UrlParse(source)
    }
}

} // verus!
