use spotify_web_api::api::tracks::{RemoveUserSavedTracks, SaveTracksForCurrentUser};
use spotify_web_api::api::{self, Method, Query as _};
use spotify_web_api::test::client::{ExpectedUrl, SingleTestClient};

#[test]
fn test_remove_user_saved_tracks_endpoint() {
    let endpoint = ExpectedUrl::builder()
        .method(Method::Delete)
        .endpoint("me/tracks")
        .add_query_params(&[("ids", "39joRyXYyjSpI6nKZHyWmH,5mPY98zmeNSp8cmrRtdUW3")])
        .build()
        .unwrap();

    let client = SingleTestClient::new_raw(endpoint, "");

    let endpoint = RemoveUserSavedTracks::builder()
        .id("39joRyXYyjSpI6nKZHyWmH")
        .id("5mPY98zmeNSp8cmrRtdUW3")
        .build()
        .unwrap();

    api::ignore(endpoint).query(&client).unwrap();
}

#[test]
fn test_save_tracks_for_current_user_endpoint() {
    let endpoint = ExpectedUrl::builder()
        .method(Method::Put)
        .endpoint("me/tracks")
        .add_query_params(&[("ids", "39joRyXYyjSpI6nKZHyWmH,5mPY98zmeNSp8cmrRtdUW3")])
        .build()
        .unwrap();

    let client = SingleTestClient::new_raw(endpoint, "");

    let endpoint =
        SaveTracksForCurrentUser::from(["39joRyXYyjSpI6nKZHyWmH", "5mPY98zmeNSp8cmrRtdUW3"]);

    api::ignore(endpoint).query(&client).unwrap();
}
