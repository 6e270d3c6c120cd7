//! Errors of the request pipeline, and the classification of the error
//! bodies that the service sends.

use vstd::prelude::*;
use vstd::string::*;
use vstd::slice::*;
use crate::auth::AuthError;
use crate::json::{Json, JsonValue};

verus! {

/// Errors which may occur when creating the body of a request.
#[derive(Debug)]
#[non_exhaustive]
pub enum BodyError {
    /// The parameters could not be written as `application/x-www-form-urlencoded`.
    UrlEncoded { source: serde_urlencoded::ser::Error },
    /// The value could not be written as JSON.
    Json,
}

/// Why a JSON value is not of the shape that a type expects.
#[derive(Debug, Clone, Copy, PartialEq, Eq, Structural)]
pub enum DecodeError {
    /// An object was expected.
    ExpectedObject,
    /// An array was expected.
    ExpectedArray,
    /// A string was expected.
    ExpectedString,
    /// A boolean was expected.
    ExpectedBool,
    /// An integer in the range of the target type was expected.
    ExpectedInteger,
    /// A required member of an object is missing.
    MissingField,
    /// A string is none of the names that the target type knows.
    UnknownVariant,
    /// The value cannot be written as JSON text.
    Unwritable,
}

/// Errors which may occur when using API endpoints.
#[derive(Debug)]
#[non_exhaustive]
#[allow(inconsistent_fields)]
pub enum ApiError<E> {
    /// The client encountered an error.
    Client { source: E },
    /// Authorization failed.
    Auth { source: AuthError },
    /// A URL failed to parse.
    UrlParse { source: url::ParseError },
    /// The body of the request could not be created.
    Body { source: BodyError },
    /// The resource has been moved permanently.
    MovedPermanently { location: Option<String> },
    /// The service reported an error in its structured form: an `error`
    /// object that holds a `message`.
    Spotify { status: u16, msg: String },
    /// The service reported an error in its legacy form: an `error` or a
    /// `message` that is a string.
    SpotifyWithStatus { status: u16, msg: String },
    /// The service answered a failure with a body that is not JSON.
    SpotifyService { status: u16, data: Vec<u8> },
    /// The service answered a failure with JSON of an unknown shape.
    SpotifyUnrecognizedWithStatus { status: u16, obj: Json },
    /// The body of a successful response is not of the expected type.
    DataType { source: DecodeError, typename: &'static str },
}

/// The message of a structured error body: the string `message` inside the
/// object `error`.
pub open spec fn structured_message(body: JsonValue) -> Option<Seq<char>> {
    match body.member("error"@) {
        Some(error) => match error.member("message"@) {
            Some(message) => message.text(),
            None => None,
        },
        None => None,
    }
}

/// The message of a legacy error body: `error` where it is a string, else
/// `message` where it is a string.
pub open spec fn legacy_message(body: JsonValue) -> Option<Seq<char>> {
    match body.member("error"@) {
        Some(error) if error.text() is Some => error.text(),
        _ => match body.member("message"@) {
            Some(message) => message.text(),
            None => None,
        },
    }
}

/// Whether `error` is what the JSON body `body` of a failed response with
/// `status` is classified as. The structured form comes first, then the
/// legacy forms; any other body is kept whole.
pub open spec fn is_spotify_error<E>(status: u16, body: JsonValue, error: ApiError<E>) -> bool {
    if let Some(text) = structured_message(body) {
        error matches ApiError::Spotify { status: s, msg } && s == status && msg@ == text
    } else if let Some(text) = legacy_message(body) {
        error matches ApiError::SpotifyWithStatus { status: s, msg } && s == status && msg@ == text
    } else {
        error matches ApiError::SpotifyUnrecognizedWithStatus { status: s, obj } && s == status
            && obj@ == body
    }
}

/// Whether `error` reports the failure `status` with the non-JSON `body`.
pub open spec fn is_server_error<E>(status: u16, body: Seq<u8>, error: ApiError<E>) -> bool {
    error matches ApiError::SpotifyService { status: s, data } && s == status && data@ == body
}

/// Whether `error` reports a permanent move to `location`.
pub open spec fn is_moved_permanently<E>(location: Option<Seq<char>>, error: ApiError<E>) -> bool {
    error matches ApiError::MovedPermanently { location: l } && match (l, location) {
        (Some(a), Some(b)) => a@ == b,
        (None, None) => true,
        _ => false,
    }
}

fn structured_message_of(value: &Json) -> (r: Option<String>)
    ensures
        r is Some <==> structured_message(value@) is Some,
        r matches Some(s) ==> Some(s@) == structured_message(value@),
{
    match value.get("error") {
        Some(error) => match error.get("message") {
            Some(message) => match message.as_str() {
                Some(text) => Some(text.to_owned()),
                None => None,
            },
            None => None,
        },
        None => None,
    }
}

fn legacy_message_of(value: &Json) -> (r: Option<String>)
    ensures
        r is Some <==> legacy_message(value@) is Some,
        r matches Some(s) ==> Some(s@) == legacy_message(value@),
{
    if let Some(error) = value.get("error") {
        if let Some(text) = error.as_str() {
            return Some(text.to_owned());
        }
    }
    match value.get("message") {
        Some(message) => match message.as_str() {
            Some(text) => Some(text.to_owned()),
            None => None,
        },
        None => None,
    }
}

impl<E> ApiError<E> {
    /// Wraps an error of the client.
    pub fn client(source: E) -> (r: Self)
        ensures
            r == (ApiError::Client { source }),
    {
        ApiError::Client { source }
    }

    /// Wraps an authorization error.
    pub fn auth(source: AuthError) -> (r: Self)
        ensures
            r == (ApiError::<E>::Auth { source }),
    {
        ApiError::Auth { source }
    }

    /// Wraps an error of body creation.
    pub fn body(source: BodyError) -> (r: Self)
        ensures
            r == (ApiError::<E>::Body { source }),
    {
        ApiError::Body { source }
    }

    /// The error for a permanent move to `location`.
    pub fn moved_permanently(location: Option<&str>) -> (r: Self)
        ensures
            is_moved_permanently(
                match location {
                    Some(l) => Some(l@),
                    None => None,
                },
                r,
            ),
    {
        ApiError::MovedPermanently {
            location: match location {
                Some(l) => Some(l.to_owned()),
                None => None,
            },
        }
    }

    /// The error for a failure whose body is not JSON.
    pub fn server_error(status: u16, body: &[u8]) -> (r: Self)
        ensures
            is_server_error(status, body@, r),
    {
        ApiError::SpotifyService { status, data: slice_to_vec(body) }
    }

    /// Classifies the JSON body of a failed response.
    pub fn from_spotify_with_status(status: u16, value: Json) -> (r: Self)
        ensures
            is_spotify_error(status, value@, r),
    {
        if let Some(msg) = structured_message_of(&value) {
            ApiError::Spotify { status, msg }
        } else if let Some(msg) = legacy_message_of(&value) {
            ApiError::SpotifyWithStatus { status, msg }
        } else {
            ApiError::SpotifyUnrecognizedWithStatus { status, obj: value }
        }
    }

    /// The error for a body that does not decode into the type named
    /// `typename`.
    pub fn data_type(source: DecodeError, typename: &'static str) -> (r: Self)
        ensures
            r == (ApiError::<E>::DataType { source, typename }),
    {
        ApiError::DataType { source, typename }
    }
}

impl<E> vstd::std_specs::convert::FromSpecImpl<AuthError> for ApiError<E> {
    open spec fn obeys_from_spec() -> bool {
        true
    }

    open spec fn from_spec(source: AuthError) -> Self {
        ApiError::Auth { source }
    }
}

impl<E> From<AuthError> for ApiError<E> {
    fn from(source: AuthError) -> (r: Self) {
        ApiError::Auth { source }
    }
}

impl<E> vstd::std_specs::convert::FromSpecImpl<url::ParseError> for ApiError<E> {
    open spec fn obeys_from_spec() -> bool {
        true
    }

    open spec fn from_spec(source: url::ParseError) -> Self {
        ApiError::UrlParse { source }
    }
}

impl<E> From<url::ParseError> for ApiError<E> {
    fn from(source: url::ParseError) -> (r: Self) {
        ApiError::UrlParse { source }
    }
}

impl<E> vstd::std_specs::convert::FromSpecImpl<BodyError> for ApiError<E> {
    open spec fn obeys_from_spec() -> bool {
        true
    }

    open spec fn from_spec(source: BodyError) -> Self {
        ApiError::Body { source }
    }
}

impl<E> From<BodyError> for ApiError<E> {
    fn from(source: BodyError) -> (r: Self) {
        ApiError::Body { source }
    }
}

impl vstd::std_specs::convert::FromSpecImpl<serde_urlencoded::ser::Error> for BodyError {
    open spec fn obeys_from_spec() -> bool {
        true
    }

    open spec fn from_spec(source: serde_urlencoded::ser::Error) -> Self {
        BodyError::UrlEncoded { source }
    }
}

impl From<serde_urlencoded::ser::Error> for BodyError {
    fn from(source: serde_urlencoded::ser::Error) -> (r: Self) {
        BodyError::UrlEncoded { source }
    }
}

} // verus!
