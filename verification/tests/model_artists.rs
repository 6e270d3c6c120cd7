use spotify_web_api::decode::FromJson;
use spotify_web_api::json::Json;
use spotify_web_api::model::{Artist, SimplifiedArtist};

#[test]
fn artist() {
    let json = r#"
       	{
			"external_urls": {
				"spotify": "string"
			},
			"followers": {
				"href": "string",
				"total": 0
			},
			"genres": ["Prog rock", "Grunge"],
			"href": "string",
			"id": "string",
			"images": [
				{
					"url": "https://i.scdn.co/image/ab67616d00001e02ff9ca10b55ce82ae553c8228",
					"height": 300,
					"width": 300
				}
			],
			"name": "string",
			"popularity": 0,
			"type": "artist",
			"uri": "string"
        }
        "#;

    let value = Json::parse_str(json).expect("the document is JSON");
    let decoded = Artist::from_json(&value);
    assert!(decoded.is_ok(), "{:?}", decoded);
}

#[test]
fn simplified_artist() {
    let json = r#"
       	{
			"external_urls": {
				"spotify": "string"
			},
			"href": "string",
			"id": "string",
			"name": "string",
			"type": "artist",
			"uri": "string"
        }
        "#;

    let value = Json::parse_str(json).expect("the document is JSON");
    let decoded = SimplifiedArtist::from_json(&value);
    assert!(decoded.is_ok(), "{:?}", decoded);
}
