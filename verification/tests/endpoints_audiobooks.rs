use spotify_web_api::api::audiobooks::{SaveAudiobooksForCurrentUser};
use spotify_web_api::api::{self, Method, Query as _};
use spotify_web_api::test::client::{ExpectedUrl, SingleTestClient};

#[test]
fn test_save_audiobooks_for_current_user_endpoint() {
    let endpoint = ExpectedUrl::builder()
        .method(Method::Put)
        .endpoint("me/audiobooks")
        .add_query_params(&[(
            "ids",
            "18yVqkdbdRvS24c0Ilj2ci,1HGw3J3NxZO1TP1BTtVhpZ,7iHfbu1YPACw6oZPAFJtqe",
        )])
        .build()
        .unwrap();

    let client = SingleTestClient::new_raw(endpoint, "");

    let endpoint = SaveAudiobooksForCurrentUser::from([
        "18yVqkdbdRvS24c0Ilj2ci",
        "1HGw3J3NxZO1TP1BTtVhpZ",
        "7iHfbu1YPACw6oZPAFJtqe",
    ]);

    api::ignore(endpoint).query(&client).unwrap();
}
