use spotify_web_api::api::client::NOT_FOUND;
use spotify_web_api::api::endpoint::Endpoint;
use spotify_web_api::api::error::BodyError;
use spotify_web_api::api::{self, ApiError, Method, Query, QueryParams};
use spotify_web_api::json::Json;
use spotify_web_api::test::client::{ExpectedUrl, SingleTestClient};

struct Dummy;

impl Endpoint for Dummy {
    fn method(&self) -> Method {
        Method::Get
    }

    fn endpoint(&self) -> String {
        "dummy".into()
    }

    fn parameters(&self) -> QueryParams {
        QueryParams::new()
    }

    fn body(&self) -> Result<Option<(&'static str, Vec<u8>)>, BodyError> {
        Ok(None)
    }
}

#[test]
fn test_spotify_non_json_response() {
    let endpoint = ExpectedUrl::builder().endpoint("dummy").build().unwrap();
    let client = SingleTestClient::new_raw(endpoint, "not json");

    let data = api::raw(Dummy).query(&client).unwrap();
    itertools::assert_equal(data, "not json".bytes());
}

#[test]
fn test_spotify_non_json_response_async() {
    let endpoint = ExpectedUrl::builder().endpoint("dummy").build().unwrap();
    let client = SingleTestClient::new_raw(endpoint, "not json");

    let data = api::raw(&Dummy).query(&client).unwrap();
    itertools::assert_equal(data, "not json".bytes());
}

#[test]
fn test_spotify_error_bad_json() {
    let endpoint = ExpectedUrl::builder()
        .endpoint("dummy")
        .status(NOT_FOUND)
        .build()
        .unwrap();
    let client = SingleTestClient::new_raw(endpoint, "");

    let err = api::raw(Dummy).query(&client).unwrap_err();
    if let ApiError::SpotifyService { status, .. } = err {
        assert_eq!(status, NOT_FOUND);
    } else {
        panic!("unexpected error: {err:?}");
    }
}

#[test]
fn test_spotify_error_detection() {
    let endpoint = ExpectedUrl::builder()
        .endpoint("dummy")
        .status(NOT_FOUND)
        .build()
        .unwrap();
    let client = SingleTestClient::new_json(
        endpoint,
        &Json::parse_str(r#"{"message": "dummy error message"}"#).unwrap(),
    )
    .unwrap();

    let err = api::raw(Dummy).query(&client).unwrap_err();
    if let ApiError::SpotifyWithStatus { status, msg } = err {
        assert_eq!(status, NOT_FOUND);
        assert_eq!(msg, "dummy error message");
    } else {
        panic!("unexpected error: {err:?}");
    }
}

#[test]
fn test_spotify_error_detection_legacy() {
    let endpoint = ExpectedUrl::builder()
        .endpoint("dummy")
        .status(NOT_FOUND)
        .build()
        .unwrap();
    let client = SingleTestClient::new_json(
        endpoint,
        &Json::parse_str(r#"{"error": "dummy error message"}"#).unwrap(),
    )
    .unwrap();

    let err = api::raw(Dummy).query(&client).unwrap_err();
    if let ApiError::SpotifyWithStatus { status, msg } = err {
        assert_eq!(status, NOT_FOUND);
        assert_eq!(msg, "dummy error message");
    } else {
        panic!("unexpected error: {err:?}");
    }
}

#[test]
fn test_spotify_error_detection_unknown() {
    let endpoint = ExpectedUrl::builder()
        .endpoint("dummy")
        .status(NOT_FOUND)
        .build()
        .unwrap();
    let err_obj = Json::parse_str(r#"{"bogus": "dummy error message"}"#).unwrap();
    let client = SingleTestClient::new_json(endpoint, &err_obj).unwrap();

    let err = api::raw(Dummy).query(&client).unwrap_err();
    if let ApiError::SpotifyUnrecognizedWithStatus { status, obj } = err {
        assert_eq!(status, NOT_FOUND);
        assert_eq!(obj, err_obj);
    } else {
        panic!("unexpected error: {err:?}");
    }
}

#[test]
fn structured_error_is_told_from_legacy_error() {
    let endpoint = ExpectedUrl::builder()
        .endpoint("dummy")
        .status(NOT_FOUND)
        .build()
        .unwrap();
    let body = Json::parse_str(r#"{"error": {"status": 404, "message": "no such thing"}}"#).unwrap();
    let client = SingleTestClient::new_json(endpoint, &body).unwrap();

    let err = api::raw(Dummy).query(&client).unwrap_err();
    if let ApiError::Spotify { status, msg } = err {
        assert_eq!(status, NOT_FOUND);
        assert_eq!(msg, "no such thing");
    } else {
        panic!("unexpected error: {err:?}");
    }
}
