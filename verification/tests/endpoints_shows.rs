use spotify_web_api::api::shows::{GetShow, RemoveUserSavedShows, SaveShowsForCurrentUser};
use spotify_web_api::api::{self, Method, Query as _};
use spotify_web_api::test::client::{ExpectedUrl, SingleTestClient};

#[test]
fn test_get_show_endpoint() {
    let endpoint = ExpectedUrl::builder()
        .endpoint("shows/38bS44xjbVVZ3No3ByF1dJ")
        .build()
        .unwrap();

    let client = SingleTestClient::new_raw(endpoint, "");

    let endpoint = GetShow::from("38bS44xjbVVZ3No3ByF1dJ");

    api::ignore(endpoint).query(&client).unwrap();
}

#[test]
fn test_remove_user_saved_shows_endpoint() {
    let endpoint = ExpectedUrl::builder()
        .method(Method::Delete)
        .endpoint("me/shows")
        .add_query_params(&[("ids", "5CfCWKI5pZ28U0uOzXkDHe,5as3aKmN2k11yfDDDSrvaZ")])
        .build()
        .unwrap();

    let client = SingleTestClient::new_raw(endpoint, "");

    let endpoint =
        RemoveUserSavedShows::from(["5CfCWKI5pZ28U0uOzXkDHe", "5as3aKmN2k11yfDDDSrvaZ"]);

    api::ignore(endpoint).query(&client).unwrap();
}

#[test]
fn test_save_shows_for_current_user_endpoint() {
    let endpoint = ExpectedUrl::builder()
        .method(Method::Put)
        .endpoint("me/shows")
        .add_query_params(&[("ids", "5CfCWKI5pZ28U0uOzXkDHe,5as3aKmN2k11yfDDDSrvaZ")])
        .build()
        .unwrap();

    let client = SingleTestClient::new_raw(endpoint, "");

    let endpoint =
        SaveShowsForCurrentUser::from(["5CfCWKI5pZ28U0uOzXkDHe", "5as3aKmN2k11yfDDDSrvaZ"]);

    api::ignore(endpoint).query(&client).unwrap();
}
