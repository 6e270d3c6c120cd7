use spotify_web_api::api::episodes::{SaveEpisodesForCurrentUser};
use spotify_web_api::api::{self, Method, Query as _};
use spotify_web_api::test::client::{ExpectedUrl, SingleTestClient};

#[test]
fn test_save_episodes_for_current_user_endpoint() {
    let endpoint = ExpectedUrl::builder()
        .method(Method::Put)
        .endpoint("me/episodes")
        .add_query_params(&[("ids", "77o6BIVlYM3msb4MMIL1jH,0Q86acNRm6V9GYx55SXKwf")])
        .build()
        .unwrap();

    let client = SingleTestClient::new_raw(endpoint, "");

    let endpoint =
        SaveEpisodesForCurrentUser::from(["77o6BIVlYM3msb4MMIL1jH", "0Q86acNRm6V9GYx55SXKwf"]);

    api::ignore(endpoint).query(&client).unwrap();
}
