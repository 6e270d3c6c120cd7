use spotify_web_api::api::client::NOT_FOUND;
use spotify_web_api::api::{ApiError, Method, Response};
use spotify_web_api::auth::pkce::{code_challenge, STATE_LENGTH};
use spotify_web_api::auth::scopes::{self, has_scope, scope_text, Scope};
use spotify_web_api::auth::{
    init_http_request_and_data, parse_http_response, set_authorization_header, AuthCodePKCE,
    AuthError, AuthFlow, ClientCredentials,
};
use spotify_web_api::model::Token;
use url::Url;

fn pairs_of(text: &str) -> Vec<(String, String)> {
    Url::parse(text)
        .unwrap()
        .query_pairs()
        .map(|(k, v)| (k.into_owned(), v.into_owned()))
        .collect()
}

fn pkce() -> AuthCodePKCE {
    AuthCodePKCE::new("client", "https://example.com/callback", Some(scopes::user_details()))
}

#[test]
fn callback_before_any_authorization_url_has_no_state() {
    let auth = pkce();
    let result = auth.verify_authorization_code("https://example.com/callback?code=abc&state=xyz");
    assert!(matches!(result, Err(AuthError::NoState)));
}

#[test]
fn callback_with_another_state_is_refused_with_both_states() {
    let mut auth = pkce();
    auth.issue_authorization_url("expected-state".to_string(), "verifier".to_string())
        .unwrap();
    let result = auth.verify_authorization_code("https://example.com/callback?code=abc&state=other");
    match result {
        Err(AuthError::InvalidState { expected, got }) => {
            assert_eq!(expected, "expected-state");
            assert_eq!(got, "other");
        }
        other => panic!("unexpected result: {other:?}"),
    }
}

#[test]
fn callback_without_a_state_is_refused() {
    let mut auth = pkce();
    auth.issue_authorization_url("expected-state".to_string(), "verifier".to_string())
        .unwrap();
    match auth.verify_authorization_code("https://example.com/callback?code=abc") {
        Err(AuthError::InvalidState { expected, got }) => {
            assert_eq!(expected, "expected-state");
            assert_eq!(got, "");
        }
        other => panic!("unexpected result: {other:?}"),
    }
}

#[test]
fn callback_with_the_issued_state_gives_the_code() {
    let mut auth = pkce();
    auth.issue_authorization_url("expected-state".to_string(), "verifier".to_string())
        .unwrap();
    let code = auth
        .verify_authorization_code("https://example.com/callback?code=the%20code&state=expected-state")
        .unwrap();
    assert_eq!(code, "the code");
}

#[test]
fn callback_without_a_code_is_refused() {
    let mut auth = pkce();
    auth.issue_authorization_url("s".to_string(), "v".to_string()).unwrap();
    assert!(matches!(
        auth.verify_authorization_code("https://example.com/callback?state=s"),
        Err(AuthError::CodeNotFound)
    ));
    assert!(matches!(
        auth.verify_authorization_code("not a url"),
        Err(AuthError::UrlParse(_))
    ));
}

#[test]
fn authorization_url_holds_the_parameters_in_order() {
    let mut auth = pkce();
    let verifier = "dBjftJeZ4CVP-mB92K27uhbUJU1p1r_wW1gFWFOEjXk";
    let text = auth
        .issue_authorization_url("the state".to_string(), verifier.to_string())
        .unwrap();
    assert!(text.starts_with("https://accounts.spotify.com/authorize?client_id=client&"));
    let expected: Vec<(String, String)> = [
        ("client_id", "client"),
        ("redirect_uri", "https://example.com/callback"),
        ("scope", "user-read-email user-read-private"),
        ("response_type", "code"),
        ("state", "the state"),
        ("code_challenge", "E9Melhoa2OwvFrEMTJguCHaoeK1t8URWbuGJSstw-cM"),
        ("code_challenge_method", "S256"),
    ]
    .iter()
    .map(|(k, v)| (k.to_string(), v.to_string()))
    .collect();
    assert_eq!(pairs_of(&text), expected);
}

#[test]
fn authorization_url_without_scopes_names_none() {
    let mut auth = AuthCodePKCE::new("client", "https://example.com/callback", None);
    let text = auth
        .issue_authorization_url("s".to_string(), "v".to_string())
        .unwrap();
    assert!(pairs_of(&text).iter().all(|(k, _)| k != "scope"));
}

#[test]
fn code_challenge_is_the_hashed_verifier() {
    assert_eq!(
        code_challenge("dBjftJeZ4CVP-mB92K27uhbUJU1p1r_wW1gFWFOEjXk"),
        "E9Melhoa2OwvFrEMTJguCHaoeK1t8URWbuGJSstw-cM"
    );
    assert_eq!(code_challenge(""), "47DEQpj8HBSa-_TImW-5JCeuQeRkm5NMpJWZG3hSuFU");
}

#[test]
fn fresh_authorization_url_has_a_fresh_state() {
    let mut auth = pkce();
    let first = auth.user_authorization_url().unwrap();
    let second = auth.user_authorization_url().unwrap();
    let state = |text: &str| {
        pairs_of(text)
            .into_iter()
            .find(|(k, _)| k == "state")
            .map(|(_, v)| v)
            .unwrap()
    };
    assert_eq!(state(&first).len(), STATE_LENGTH);
    assert!(state(&first).chars().all(|c| c.is_ascii_alphanumeric()));
    assert_ne!(state(&first), state(&second));

    let callback = format!("https://example.com/callback?code=c&state={}", state(&second));
    assert_eq!(auth.verify_authorization_code(&callback).unwrap(), "c");
    let stale = format!("https://example.com/callback?code=c&state={}", state(&first));
    assert!(matches!(
        auth.verify_authorization_code(&stale),
        Err(AuthError::InvalidState { .. })
    ));
}

#[test]
fn exchange_needs_a_code_verifier() {
    let mut auth = pkce();
    assert!(matches!(auth.token_params("code"), Err(AuthError::NoCodeVerifier)));

    auth.issue_authorization_url("s".to_string(), "the verifier".to_string())
        .unwrap();
    let (mime, body) = auth.token_params("the code").unwrap().into_body().unwrap().unwrap();
    assert_eq!(mime, "application/x-www-form-urlencoded");
    assert_eq!(
        String::from_utf8(body).unwrap(),
        "grant_type=authorization_code&code=the+code&redirect_uri=https%3A%2F%2Fexample.com%2Fcallback&client_id=client&code_verifier=the+verifier"
    );

    let (_, body) = auth
        .token_params_from_redirect_url("https://example.com/callback?code=abc&state=s")
        .unwrap()
        .into_body()
        .unwrap()
        .unwrap();
    assert!(String::from_utf8(body).unwrap().contains("&code=abc&"));
    assert!(matches!(
        auth.token_params_from_redirect_url("https://example.com/callback?code=abc&state=t"),
        Err(AuthError::InvalidState { .. })
    ));
}

#[test]
fn refresh_is_for_the_flow_with_pkce_only() {
    let auth = pkce();
    let (_, body) = AuthFlow::refresh_token(&auth, "r3fr3sh")
        .unwrap()
        .into_body()
        .unwrap()
        .unwrap();
    assert_eq!(
        String::from_utf8(body).unwrap(),
        "grant_type=refresh_token&refresh_token=r3fr3sh&client_id=client"
    );

    let credentials = ClientCredentials::new("id", "secret");
    assert!(matches!(
        AuthFlow::refresh_token(&credentials, "r3fr3sh"),
        Err(AuthError::EmptyRefreshToken)
    ));
}

#[test]
fn client_credentials_use_basic_authorization() {
    let credentials = ClientCredentials::new("Aladdin", "open sesame");
    assert_eq!(credentials.authorization_header(), "Basic QWxhZGRpbjpvcGVuIHNlc2FtZQ==");
    let (_, body) = credentials.token_params().into_body().unwrap().unwrap();
    assert_eq!(body, b"grant_type=client_credentials");
}

#[test]
fn token_request_is_a_post_of_the_form() {
    let credentials = ClientCredentials::new("id", "secret");
    let request = init_http_request_and_data(
        Some(credentials.authorization_header()),
        credentials.token_params(),
    )
    .unwrap();
    assert_eq!(request.method, Method::Post);
    assert_eq!(request.url.as_str(), "https://accounts.spotify.com/api/token");
    assert_eq!(
        request.headers,
        vec![
            ("authorization".to_string(), "Basic aWQ6c2VjcmV0".to_string()),
            (
                "content-type".to_string(),
                "application/x-www-form-urlencoded".to_string()
            ),
            ("content-length".to_string(), "29".to_string()),
        ]
    );
    assert_eq!(request.body, b"grant_type=client_credentials");

    let auth = pkce();
    let request = init_http_request_and_data(None, auth.refresh_params("r")).unwrap();
    assert_eq!(request.headers.len(), 2);
    assert_eq!(request.headers[0].0, "content-type");
}

#[test]
fn authorization_that_is_no_header_value_is_refused() {
    let credentials = ClientCredentials::new("id", "secret");
    let result = init_http_request_and_data(Some("Basic\n".to_string()), credentials.token_params());
    assert!(matches!(
        result,
        Err(ApiError::Auth { source: AuthError::HeaderValue(_) })
    ));

    let mut headers = vec![
        ("accept".to_string(), "*/*".to_string()),
        ("authorization".to_string(), "old".to_string()),
    ];
    assert!(matches!(
        set_authorization_header(&mut headers, "bad\u{7f}"),
        Err(AuthError::HeaderValue(_))
    ));
    assert_eq!(headers.len(), 2);
    set_authorization_header(&mut headers, "Bearer t\u{e9}\t1").unwrap();
    assert_eq!(
        headers,
        vec![
            ("accept".to_string(), "*/*".to_string()),
            ("authorization".to_string(), "Bearer t\u{e9}\t1".to_string()),
        ]
    );
}

#[test]
fn token_response_is_decoded() {
    let response = Response::new(
        200,
        br#"{"access_token":"NgCXRK","token_type":"Bearer","scope":"user-read-private user-read-email","expires_in":3600,"refresh_token":"NgAagA"}"#.to_vec(),
    );
    let token: Token = parse_http_response(&response).unwrap();
    assert_eq!(token.access_token, "NgCXRK");
    assert_eq!(token.token_type, "Bearer");
    assert_eq!(token.expires_in, 3600);
    assert_eq!(token.refresh_token.as_deref(), Some("NgAagA"));
    assert_eq!(token.scope.as_deref(), Some("user-read-private user-read-email"));
    assert_eq!(token.expires_at, None);

    let response = Response::new(200, br#"{"access_token":"a","token_type":"Bearer","expires_in":-1}"#.to_vec());
    assert!(matches!(
        parse_http_response::<Token>(&response),
        Err(ApiError::DataType { typename: "Token", .. })
    ));

    let response = Response::new(NOT_FOUND, br#"{"error":"invalid_client"}"#.to_vec());
    match parse_http_response::<Token>(&response) {
        Err(ApiError::SpotifyWithStatus { status, msg }) => {
            assert_eq!(status, NOT_FOUND);
            assert_eq!(msg, "invalid_client");
        }
        other => panic!("unexpected result: {other:?}"),
    }
}

#[test]
fn scopes_have_names() {
    assert_eq!(Scope::UserReadEmail.as_str(), "user-read-email");
    assert_eq!(Scope::try_from("user-read-email"), Some(Scope::UserReadEmail));
    assert_eq!(Scope::try_from("streaming"), Some(Scope::Streaming));
    assert_eq!(Scope::try_from("user_read_email"), None);
    assert_eq!(Scope::UgcImageUpload.to_string(), "ugc-image-upload");
    assert_eq!(scope_text(&vec![]), "");
    assert_eq!(
        scope_text(&vec![Scope::Streaming, Scope::UserTopRead]),
        "streaming user-top-read"
    );
    assert!(has_scope(&scopes::playlists(), Scope::PlaylistModifyPublic));
    assert!(!has_scope(&scopes::playlists(), Scope::Streaming));
}

#[test]
fn auth_errors_describe_themselves() {
    assert_eq!(AuthError::CodeNotFound.to_string(), "authorization code not found");
    assert_eq!(AuthError::EmptyAccessToken.to_string(), "access token is empty");
    assert_eq!(AuthError::EmptyRefreshToken.to_string(), "refresh token is empty");
    assert_eq!(
        AuthError::InvalidState { expected: "a".to_string(), got: "b".to_string() }.to_string(),
        "invalid state parameter: expected a got b"
    );
}
