use spotify_web_api::decode::FromJson;
use spotify_web_api::json::Json;
use spotify_web_api::model::{Show, SimplifiedShow};

#[test]
fn show() {
    let json = r#"
        {
			"available_markets": ["US"],
			"copyrights": [
				{
					"text": "string",
					"type": "C"
				}
			],
			"description": "string",
			"html_description": "string",
			"explicit": false,
			"external_urls": {
				"spotify": "string"
			},
			"href": "string",
			"id": "string",
			"images": [
				{
					"url": "https://i.scdn.co/image/ab67616d00001e02ff9ca10b55ce82ae553c8228",
					"height": 300,
					"width": 300
				}
			],
			"is_externally_hosted": false,
			"languages": ["string"],
			"media_type": "string",
			"name": "string",
			"publisher": "string",
			"type": "show",
			"uri": "string",
			"total_episodes": 0,
			"episodes": {
				"href": "https://api.spotify.com/v1/me/shows?offset=0&limit=20",
				"limit": 20,
				"next": "https://api.spotify.com/v1/me/shows?offset=1&limit=1",
				"offset": 0,
				"previous": "https://api.spotify.com/v1/me/shows?offset=1&limit=1",
				"total": 4,
				"items": [
					{
						"audio_preview_url": "https://p.scdn.co/mp3-preview/2f37da1d4221f40b9d1a98cd191f4d6f1646ad17",
						"description": "A Spotify podcast sharing fresh insights on important topics of the moment—in a way only Spotify can. You’ll hear from experts in the music, podcast and tech industries as we discover and uncover stories about our work and the world around us.",
						"html_description": "<p>A Spotify podcast sharing fresh insights on important topics of the moment—in a way only Spotify can. You’ll hear from experts in the music, podcast and tech industries as we discover and uncover stories about our work and the world around us.</p>",
						"duration_ms": 1686230,
						"explicit": false,
						"external_urls": {
							"spotify": "string"
						},
						"href": "https://api.spotify.com/v1/episodes/5Xt5DXGzch68nYYamXrNxZ",
						"id": "5Xt5DXGzch68nYYamXrNxZ",
						"images": [
							{
								"url": "https://i.scdn.co/image/ab67616d00001e02ff9ca10b55ce82ae553c8228",
								"height": 300,
								"width": 300
							}
						],
						"is_externally_hosted": false,
						"is_playable": false,
						"language": "en",
						"languages": ["fr", "en"],
						"name": "Starting Your Own Podcast: Tips, Tricks, and Advice From Anchor Creators",
						"release_date": "1981-12-15",
						"release_date_precision": "day",
						"resume_point": {
							"fully_played": false,
							"resume_position_ms": 0
						},
						"type": "episode",
						"uri": "spotify:episode:0zLhl3WsOCQHbe1BPTiHgr",
						"restrictions": {
							"reason": "string"
						}
					}
				]
			}
		}
        "#;

    let value = Json::parse_str(json).expect("the document is JSON");
    let decoded = Show::from_json(&value);
    assert!(decoded.is_ok(), "{:?}", decoded);
}

#[test]
fn simplified_show() {
    let json = r#"
        {
			"available_markets": ["US"],
			"copyrights": [
				{
					"text": "string",
					"type": "C"
				}
			],
			"description": "string",
			"html_description": "string",
			"explicit": false,
			"external_urls": {
				"spotify": "string"
			},
			"href": "string",
			"id": "string",
			"images": [
				{
					"url": "https://i.scdn.co/image/ab67616d00001e02ff9ca10b55ce82ae553c8228",
					"height": 300,
					"width": 300
				}
			],
			"is_externally_hosted": false,
			"languages": ["string"],
			"media_type": "string",
			"name": "string",
			"publisher": "string",
			"type": "show",
			"uri": "string",
			"total_episodes": 0
        }
        "#;

    let value = Json::parse_str(json).expect("the document is JSON");
    let decoded = SimplifiedShow::from_json(&value);
    assert!(decoded.is_ok(), "{:?}", decoded);
}
