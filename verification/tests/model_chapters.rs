use spotify_web_api::decode::FromJson;
use spotify_web_api::json::Json;
use spotify_web_api::model::{Chapter, SimplifiedChapter};

#[test]
fn chapter() {
    let json = r#"
        {
			"audio_preview_url": "https://p.scdn.co/mp3-preview/2f37da1d4221f40b9d1a98cd191f4d6f1646ad17",
			"available_markets": ["US"],
			"chapter_number": 1,
			"description": "We kept on ascending, with occasional periods of quick descent, but in the main always ascending. Suddenly, I became conscious of the fact that the driver was in the act of pulling up the horses in the courtyard of a vast ruined castle, from whose tall black windows came no ray of light, and whose broken battlements showed a jagged line against the moonlit sky.",
			"html_description": "<p>We kept on ascending, with occasional periods of quick descent, but in the main always ascending. Suddenly, I became conscious of the fact that the driver was in the act of pulling up the horses in the courtyard of a vast ruined castle, from whose tall black windows came no ray of light, and whose broken battlements showed a jagged line against the moonlit sky.</p>",
			"duration_ms": 1686230,
			"explicit": false,
			"external_urls": {
				"spotify": "string"
			},
			"href": "https://api.spotify.com/v1/episodes/5Xt5DXGzch68nYYamXrNxZ",
			"id": "5Xt5DXGzch68nYYamXrNxZ",
			"images": [
				{
					"url": "https://i.scdn.co/image/ab67616d00001e02ff9ca10b55ce82ae553c8228",
					"height": 300,
					"width": 300
				}
			],
			"is_playable": false,
			"languages": ["fr", "en"],
			"name": "Starting Your Own Podcast: Tips, Tricks, and Advice From Anchor Creators",
			"release_date": "1981-12-15",
			"release_date_precision": "day",
			"resume_point": {
				"fully_played": false,
				"resume_position_ms": 0
			},
			"type": "episode",
			"uri": "spotify:episode:0zLhl3WsOCQHbe1BPTiHgr",
			"restrictions": {
				"reason": "string"
			},
			"audiobook": {
				"authors": [
					{
						"name": "string"
					}
				],
				"available_markets": ["US"],
				"copyrights": [
					{
						"text": "string",
						"type": "C"
					}
				],
				"description": "string",
				"html_description": "string",
				"edition": "Unabridged",
				"explicit": false,
				"external_urls": {
					"spotify": "string"
				},
				"href": "string",
				"id": "string",
				"images": [
					{
						"url": "https://i.scdn.co/image/ab67616d00001e02ff9ca10b55ce82ae553c8228",
						"height": 300,
						"width": 300
					}
				],
				"languages": ["string"],
				"media_type": "string",
				"name": "string",
				"narrators": [
					{
						"name": "string"
					}
				],
				"publisher": "string",
				"type": "audiobook",
				"uri": "string",
				"total_chapters": 0
			}
        }
        "#;

    let value = Json::parse_str(json).expect("the document is JSON");
    let decoded = Chapter::from_json(&value);
    assert!(decoded.is_ok(), "{:?}", decoded);
}

#[test]
fn simplified_chapter() {
    let json = r#"
        {
			"audio_preview_url": "https://p.scdn.co/mp3-preview/2f37da1d4221f40b9d1a98cd191f4d6f1646ad17",
			"available_markets": ["US"],
			"chapter_number": 1,
			"description": "We kept on ascending, with occasional periods of quick descent, but in the main always ascending. Suddenly, I became conscious of the fact that the driver was in the act of pulling up the horses in the courtyard of a vast ruined castle, from whose tall black windows came no ray of light, and whose broken battlements showed a jagged line against the moonlit sky.",
			"html_description": "<p>We kept on ascending, with occasional periods of quick descent, but in the main always ascending. Suddenly, I became conscious of the fact that the driver was in the act of pulling up the horses in the courtyard of a vast ruined castle, from whose tall black windows came no ray of light, and whose broken battlements showed a jagged line against the moonlit sky.</p>",
			"duration_ms": 1686230,
			"explicit": false,
			"external_urls": {
				"spotify": "string"
			},
			"href": "https://api.spotify.com/v1/episodes/5Xt5DXGzch68nYYamXrNxZ",
			"id": "5Xt5DXGzch68nYYamXrNxZ",
			"images": [
				{
					"url": "https://i.scdn.co/image/ab67616d00001e02ff9ca10b55ce82ae553c8228",
					"height": 300,
					"width": 300
				}
			],
			"is_playable": false,
			"languages": ["fr", "en"],
			"name": "Starting Your Own Podcast: Tips, Tricks, and Advice From Anchor Creators",
			"release_date": "1981-12-15",
			"release_date_precision": "day",
			"resume_point": {
				"fully_played": false,
				"resume_position_ms": 0
			},
			"type": "episode",
			"uri": "spotify:episode:0zLhl3WsOCQHbe1BPTiHgr",
			"restrictions": {
				"reason": "string"
			}
        }
        "#;

    let value = Json::parse_str(json).expect("the document is JSON");
    let decoded = SimplifiedChapter::from_json(&value);
    assert!(decoded.is_ok(), "{:?}", decoded);
}
