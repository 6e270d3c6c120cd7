use spotify_web_api::decode::FromJson;
use spotify_web_api::json::Json;
use spotify_web_api::model::{Track};

#[test]
fn track() {
    let json = r#"
        {
			"album": {
				"album_type": "compilation",
				"total_tracks": 9,
				"available_markets": ["CA", "BR", "IT"],
				"external_urls": {
					"spotify": "string"
				},
				"href": "string",
				"id": "2up3OPMp9Tb4dAKM2erWXQ",
				"images": [
					{
						"url": "https://i.scdn.co/image/ab67616d00001e02ff9ca10b55ce82ae553c8228",
						"height": 300,
						"width": 300
					}
				],
				"name": "string",
				"release_date": "1981-12",
				"release_date_precision": "year",
				"restrictions": {
					"reason": "market"
				},
				"type": "album",
				"uri": "spotify:album:2up3OPMp9Tb4dAKM2erWXQ",
				"artists": [
					{
						"external_urls": {
							"spotify": "string"
						},
						"href": "string",
						"id": "string",
						"name": "string",
						"type": "artist",
						"uri": "string"
					}
				]
			},
			"artists": [
				{
					"external_urls": {
						"spotify": "string"
					},
					"href": "string",
					"id": "string",
					"name": "string",
					"type": "artist",
					"uri": "string"
				}
			],
			"available_markets": ["CA", "BR", "IT"],
			"disc_number": 0,
			"duration_ms": 0,
			"explicit": false,
			"external_ids": {
				"isrc": "string",
				"ean": "string",
				"upc": "string"
			},
			"external_urls": {
				"spotify": "string"
			},
			"href": "string",
			"id": "string",
			"is_playable": false,
			"linked_from": {},
			"restrictions": {
				"reason": "string"
			},
			"name": "string",
			"popularity": 0,
			"preview_url": "string",
			"track_number": 0,
			"type": "track",
			"uri": "string",
			"is_local": false
        }
        "#;

    let value = Json::parse_str(json).expect("the document is JSON");
    let decoded = Track::from_json(&value);
    assert!(decoded.is_ok(), "{:?}", decoded);
}
