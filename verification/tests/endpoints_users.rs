use spotify_web_api::api::users::{GetFollowedArtists};
use spotify_web_api::api::{self, Query as _};
use spotify_web_api::test::client::{ExpectedUrl, SingleTestClient};

#[test]
fn test_get_followed_artists_endpoint() {
    let endpoint = ExpectedUrl::builder()
        .endpoint("me/following")
        .add_query_params(&[("type", "artist")])
        .build()
        .unwrap();

    let client = SingleTestClient::new_raw(endpoint, "");

    api::ignore(GetFollowedArtists::default())
        .query(&client)
        .unwrap();
}

#[test]
fn test_get_followed_artists_endpoint_with_after() {
    let endpoint = ExpectedUrl::builder()
        .endpoint("me/following")
        .add_query_params(&[("type", "artist")])
        .add_query_params(&[("after", "2CIMQHirSU0MQqyYHq0eOx")])
        .build()
        .unwrap();

    let client = SingleTestClient::new_raw(endpoint, "");

    api::ignore(GetFollowedArtists::with_after(Some(
        "2CIMQHirSU0MQqyYHq0eOx",
    )))
    .query(&client)
    .unwrap();
}
