use spotify_web_api::api::albums::{CheckUserSavedAlbums, GetSeveralAlbums, GetUserSavedAlbums, SaveAlbumsForCurrentUser};
use spotify_web_api::api::{self, Method, Query as _};
use spotify_web_api::json::Json;
use spotify_web_api::test::client::{ExpectedUrl, SingleTestClient};

#[test]
fn test_check_user_saved_albums_endpoint() {
    let endpoint = ExpectedUrl::builder()
        .endpoint("me/albums/contains")
        .add_query_params(&[(
            "ids",
            "382ObEPsp2rxGrnsizN5TX,1A2GTWGtFfWp7KSQTwWOyo,2noRn2Aes5aoNVsU6iWThc",
        )])
        .build()
        .unwrap();

    let expected_response = vec![false, false, false];

    let client = SingleTestClient::new_json(
        endpoint,
        &Json::Array(expected_response.iter().map(|b| Json::Bool(*b)).collect()),
    )
    .unwrap();

    let endpoint = CheckUserSavedAlbums::builder()
        .id("382ObEPsp2rxGrnsizN5TX")
        .id("1A2GTWGtFfWp7KSQTwWOyo")
        .id("2noRn2Aes5aoNVsU6iWThc")
        .build()
        .unwrap();

    let result: Vec<bool> = endpoint.query(&client).unwrap();

    assert_eq!(result, expected_response);
}

#[test]
fn test_get_several_albums_endpoint() {
    let endpoint = ExpectedUrl::builder()
        .endpoint("albums")
        .add_query_params(&[(
            "ids",
            "382ObEPsp2rxGrnsizN5TX,1A2GTWGtFfWp7KSQTwWOyo,2noRn2Aes5aoNVsU6iWThc",
        )])
        .build()
        .unwrap();

    let client = SingleTestClient::new_raw(endpoint, "");

    let endpoint = GetSeveralAlbums::from([
        "382ObEPsp2rxGrnsizN5TX",
        "1A2GTWGtFfWp7KSQTwWOyo",
        "2noRn2Aes5aoNVsU6iWThc",
    ]);

    api::ignore(endpoint).query(&client).unwrap();
}

#[test]
fn endpoint() {
    let endpoint = ExpectedUrl::builder()
        .endpoint("me/albums")
        .build()
        .unwrap();

    let client = SingleTestClient::new_raw(endpoint, "");

    let endpoint = GetUserSavedAlbums::default();

    api::ignore(endpoint).query(&client).unwrap();
}

#[test]
fn test_save_albums_for_current_user_endpoint() {
    let endpoint = ExpectedUrl::builder()
        .method(Method::Put)
        .endpoint("me/albums")
        .add_query_params(&[("ids", "7F50uh7oGitmAEScRKV6pD,27XW2QTeqZGOKlm2Dt0PvN")])
        .build()
        .unwrap();

    let client = SingleTestClient::new_raw(endpoint, "");

    let endpoint =
        SaveAlbumsForCurrentUser::from(["7F50uh7oGitmAEScRKV6pD", "27XW2QTeqZGOKlm2Dt0PvN"]);

    api::ignore(endpoint).query(&client).unwrap();
}
