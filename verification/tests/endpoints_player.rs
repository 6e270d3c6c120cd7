use spotify_web_api::api::player::{GetPlaybackState, PausePlayback, SetRepeatMode};
use spotify_web_api::api::{self, Method, Query as _};
use spotify_web_api::model::{RepeatState};
use spotify_web_api::test::client::{ExpectedUrl, SingleTestClient};

#[test]
fn test_get_playback_state_endpoint() {
    let endpoint = ExpectedUrl::builder()
        .endpoint("me/player")
        .build()
        .unwrap();

    let client = SingleTestClient::new_raw(endpoint, "");

    let endpoint = GetPlaybackState::default();

    api::ignore(endpoint).query(&client).unwrap();
}

#[test]
fn test_pause_playback_endpoint() {
    let endpoint = ExpectedUrl::builder()
        .method(Method::Put)
        .endpoint("me/player/pause")
        .build()
        .unwrap();
    let client = SingleTestClient::new_raw(endpoint, "");
    api::ignore(PausePlayback::default())
        .query(&client)
        .unwrap();
}

#[test]
fn test_set_repeat_mode_endpoint() {
    let endpoint = ExpectedUrl::builder()
        .method(Method::Put)
        .endpoint("me/player/repeat")
        .add_query_params(&[("state", "track")])
        .build()
        .unwrap();
    let client = SingleTestClient::new_raw(endpoint, "");
    api::ignore(SetRepeatMode::from(RepeatState::Track))
        .query(&client)
        .unwrap();
}
