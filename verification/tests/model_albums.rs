use spotify_web_api::decode::FromJson;
use spotify_web_api::json::Json;
use spotify_web_api::model::{Album, SimplifiedAlbum};

#[test]
fn album() {
    let json = r#"
        {
			"album_type": "compilation",
			"total_tracks": 9,
			"available_markets": ["CA", "BR", "IT"],
			"external_urls": {
				"spotify": "string"
			},
			"href": "string",
			"id": "2up3OPMp9Tb4dAKM2erWXQ",
			"images": [
				{
					"url": "https://i.scdn.co/image/ab67616d00001e02ff9ca10b55ce82ae553c8228",
					"height": 300,
					"width": 300
				}
			],
			"name": "string",
			"release_date": "1981-12",
			"release_date_precision": "year",
			"restrictions": {
				"reason": "market"
			},
			"type": "album",
			"uri": "spotify:album:2up3OPMp9Tb4dAKM2erWXQ",
			"artists": [
				{
					"external_urls": {
						"spotify": "string"
					},
					"href": "string",
					"id": "string",
					"name": "string",
					"type": "artist",
					"uri": "string"
				}
			],
			"tracks": {
				"href": "https://api.spotify.com/v1/me/shows?offset=0&limit=20",
				"limit": 20,
				"next": "https://api.spotify.com/v1/me/shows?offset=1&limit=1",
				"offset": 0,
				"previous": "https://api.spotify.com/v1/me/shows?offset=1&limit=1",
				"total": 4,
				"items": [
					{
						"artists": [
							{
								"external_urls": {
									"spotify": "string"
								},
								"href": "string",
								"id": "string",
								"name": "string",
								"type": "artist",
								"uri": "string"
							}
						],
						"available_markets": ["CA", "BR", "IT"],
						"disc_number": 0,
						"duration_ms": 0,
						"explicit": false,
						"external_urls": {
							"spotify": "string"
						},
						"href": "string",
						"id": "string",
						"is_playable": false,
						"linked_from": {
							"external_urls": {
								"spotify": "string"
							},
							"href": "string",
							"id": "string",
							"type": "track",
							"uri": "string"
						},
						"restrictions": {
							"reason": "string"
						},
						"name": "string",
						"preview_url": "string",
						"track_number": 0,
						"type": "track",
						"uri": "string",
						"is_local": false
					}
				]
			},
			"copyrights": [
				{
					"text": "string",
					"type": "P"
				}
			],
			"external_ids": {
				"isrc": "string",
				"ean": "string",
				"upc": "string"
			},
			"genres": ["Egg punk", "Noise rock"],
			"label": "string",
			"popularity": 0
        }
        "#;

    let value = Json::parse_str(json).expect("the document is JSON");
    let decoded = Album::from_json(&value);
    assert!(decoded.is_ok(), "{:?}", decoded);
}

#[test]
fn simplified_album() {
    let json = r#"
        {
			"album_type": "compilation",
			"total_tracks": 9,
			"available_markets": ["CA", "BR", "IT"],
			"external_urls": {
				"spotify": "string"
			},
			"href": "string",
			"id": "2up3OPMp9Tb4dAKM2erWXQ",
			"images": [
				{
					"url": "https://i.scdn.co/image/ab67616d00001e02ff9ca10b55ce82ae553c8228",
					"height": 300,
					"width": 300
				}
			],
			"name": "string",
			"release_date": "1981-12",
			"release_date_precision": "year",
			"restrictions": {
				"reason": "market"
			},
			"type": "album",
			"uri": "spotify:album:2up3OPMp9Tb4dAKM2erWXQ",
			"artists": [
				{
					"external_urls": {
						"spotify": "string"
					},
					"href": "string",
					"id": "string",
					"name": "string",
					"type": "artist",
					"uri": "string"
				}
			]
        }
        "#;

    let value = Json::parse_str(json).expect("the document is JSON");
    let decoded = SimplifiedAlbum::from_json(&value);
    assert!(decoded.is_ok(), "{:?}", decoded);
}
