use spotify_web_api::auth::scopes::Scope;
use spotify_web_api::auth::{AuthCodePKCE, AuthError, ClientCredentials};
use spotify_web_api::decode::FromJson;
use spotify_web_api::json::Json;
use spotify_web_api::model::Token;
use spotify_web_api::spotify::{rest_endpoint, scopes_of, RestError, Session};
use spotify_web_api::time::Timestamp;

fn token(refresh: Option<&str>) -> Token {
    Token {
        access_token: "access".to_string(),
        token_type: "Bearer".to_string(),
        expires_in: 3600,
        refresh_token: refresh.map(str::to_owned),
        scope: Some("user-read-email bogus\tstreaming user-read-email".to_string()),
        expires_at: None,
    }
}

fn at(secs: i64) -> Timestamp {
    Timestamp { secs, nanos: 0 }
}

fn pkce() -> AuthCodePKCE {
    AuthCodePKCE::new("client", "https://example.com/callback", None)
}

#[test]
fn stale_token_asks_for_a_refresh() {
    let mut session = Session::new(pkce());
    session.set_token(token(Some("refresh")), at(1_000));
    assert_eq!(session.token.as_ref().unwrap().expires_at, Some(at(4_600)));

    // Before and at the expiry nothing is to be done.
    assert_eq!(session.refresh_before_request(at(1_000)).unwrap(), None);
    assert_eq!(session.refresh_before_request(at(4_600)).unwrap(), None);
    // After it the token is refreshed first.
    assert_eq!(
        session.refresh_before_request(Timestamp { secs: 4_600, nanos: 1 }).unwrap(),
        Some("refresh".to_string())
    );
    assert_eq!(
        session.refresh_before_request(at(10_000)).unwrap(),
        Some("refresh".to_string())
    );
}

#[test]
fn stale_token_without_a_refresh_token_asks_for_nothing() {
    let mut session = Session::new(pkce());
    session.set_token(token(None), at(1_000));
    assert_eq!(session.refresh_before_request(at(10_000)).unwrap(), None);
}

#[test]
fn token_without_an_expiry_counts_as_expired() {
    let session = Session::new(pkce()).with_token(token(Some("refresh")));
    assert!(session.token.as_ref().unwrap().is_expired());
    assert!(session.token.as_ref().unwrap().is_expired_at(at(0)));
    assert_eq!(
        session.refresh_before_request(at(0)).unwrap(),
        Some("refresh".to_string())
    );
}

#[test]
fn no_token_is_an_error() {
    let session = Session::new(pkce());
    assert!(matches!(
        session.refresh_before_request(at(0)),
        Err(AuthError::EmptyAccessToken)
    ));
    assert!(matches!(session.refresh_token(), Err(AuthError::EmptyAccessToken)));
    let mut headers = Vec::new();
    assert!(matches!(
        session.set_header(&mut headers),
        Err(AuthError::EmptyAccessToken)
    ));
    assert!(headers.is_empty());
    assert!(matches!(session.token_to_string(), Ok(None)));
}

#[test]
fn refresh_on_demand_needs_a_refresh_token() {
    let session = Session::new(pkce()).with_token(token(None));
    assert!(matches!(session.refresh_token(), Err(AuthError::EmptyRefreshToken)));
    let session = Session::new(pkce()).with_token(token(Some("r")));
    assert_eq!(session.refresh_token().unwrap(), "r");
}

#[test]
fn expiry_that_cannot_be_held_is_none() {
    let mut session = Session::new(pkce());
    session.set_token(token(None), at(i64::MAX - 10));
    assert_eq!(session.token.as_ref().unwrap().expires_at, None);
}

#[test]
fn bearer_header_takes_the_place_of_another() {
    let session = Session::new(pkce()).with_token(token(None));
    let mut headers = vec![
        ("authorization".to_string(), "Basic x".to_string()),
        ("content-type".to_string(), "application/json".to_string()),
    ];
    session.set_header(&mut headers).unwrap();
    assert_eq!(
        headers,
        vec![
            ("content-type".to_string(), "application/json".to_string()),
            ("authorization".to_string(), "Bearer access".to_string()),
        ]
    );
}

#[test]
fn token_overrides_the_scopes_of_the_flow() {
    let session = Session::new(pkce()).with_token(token(None));
    assert_eq!(session.token, Some(token(None)));
    let mut auth = session.auth;
    let url = auth
        .issue_authorization_url("s".to_string(), "v".to_string())
        .unwrap();
    assert!(url.contains("scope=user-read-email+streaming&"));

    assert_eq!(
        scopes_of(&vec!["streaming".to_string(), "x".to_string(), "streaming".to_string()]),
        vec![Scope::Streaming]
    );
}

#[test]
fn client_credentials_keep_no_refresh_token() {
    let session = Session::new(ClientCredentials::new("id", "secret")).with_token(token(Some("r")));
    let kept = session.token.unwrap();
    assert_eq!(kept.refresh_token, None);
    assert_eq!(kept.scope, None);
    assert_eq!(kept.access_token, "access");
}

#[test]
fn token_is_written_as_json() {
    let mut session = Session::new(pkce());
    session.set_token(token(Some("r")), Timestamp { secs: 1_516_987_809, nanos: 500_000_000 });
    let text = session.token_to_string().unwrap().unwrap();
    assert_eq!(
        text,
        r#"{"access_token":"access","expires_at":"2018-01-26T18:30:09.500Z","expires_in":3600,"refresh_token":"r","scope":"user-read-email bogus\tstreaming user-read-email","token_type":"Bearer"}"#
    );

    let read = Token::from_json(&Json::parse_str(&text).unwrap()).unwrap();
    assert_eq!(Some(read), session.token);
}

#[test]
fn endpoints_are_resolved_against_the_base() {
    let url = rest_endpoint::<RestError>("me/albums").unwrap();
    assert_eq!(url.as_str(), "https://api.spotify.com/v1/me/albums");
    let url = rest_endpoint::<RestError>("users/a b/playlists").unwrap();
    assert_eq!(url.as_str(), "https://api.spotify.com/v1/users/a%20b/playlists");
}
