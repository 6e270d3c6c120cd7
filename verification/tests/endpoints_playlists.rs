use spotify_web_api::api::playlists::{AddItemsToPlaylist, CreatePlaylist, GetCurrentUserPlaylists, GetPlaylist};
use spotify_web_api::api::{self, Method, Query as _};
use spotify_web_api::model::{TrackId};
use spotify_web_api::test::client::{ExpectedUrl, SingleTestClient};

#[test]
fn test_add_items_to_playlist_endpoint() {
    let endpoint = ExpectedUrl::builder()
        .method(Method::Post)
        .endpoint("playlists/3cEYpjA9oz9GiPac4AsH4n/tracks")
        .add_query_params(&[("uris", "spotify:track:60zbztYPxtTQLLcPVjnEZG")])
        .build()
        .unwrap();

    let client = SingleTestClient::new_raw(endpoint, "");

    let track = TrackId::from_id("60zbztYPxtTQLLcPVjnEZG").unwrap();

    let endpoint = AddItemsToPlaylist {
        id: "3cEYpjA9oz9GiPac4AsH4n".to_owned(),
        position: None,
        uris: vec![track.into()],
    };

    api::ignore(endpoint).query(&client).unwrap();
}

#[test]
fn test_create_playlist_endpoint() {
    let endpoint = ExpectedUrl::builder()
        .method(Method::Post)
        .content_type("application/json")
        .endpoint("users/smedjan/playlists")
        .body_str(r#"{"description":"New playlist description","name":"New Playlist","public":false}"#)
        .build()
        .unwrap();

    let client = SingleTestClient::new_raw(endpoint, "");

    let endpoint = CreatePlaylist {
        id: "smedjan".to_owned(),
        name: "New Playlist".to_owned(),
        description: Some("New playlist description".to_owned()),
        public: Some(false),
        collaborative: None,
    };

    api::ignore(endpoint).query(&client).unwrap();
}

#[test]
fn test_get_current_user_playlists_endpoint() {
    let endpoint = ExpectedUrl::builder()
        .endpoint("me/playlists")
        .build()
        .unwrap();
    let client = SingleTestClient::new_raw(endpoint, "");
    api::ignore(GetCurrentUserPlaylists).query(&client).unwrap();
}

#[test]
fn test_get_playlist_endpoint() {
    let endpoint = ExpectedUrl::builder()
        .endpoint("playlists/3cEYpjA9oz9GiPac4AsH4n")
        .build()
        .unwrap();

    let client = SingleTestClient::new_raw(endpoint, "");

    let endpoint = GetPlaylist::from("3cEYpjA9oz9GiPac4AsH4n");

    api::ignore(endpoint).query(&client).unwrap();
}
