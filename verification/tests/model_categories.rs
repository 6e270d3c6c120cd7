use spotify_web_api::decode::FromJson;
use spotify_web_api::json::Json;
use spotify_web_api::model::{Category};

#[test]
fn category() {
    let json = r#"
        {
			"href": "string",
			"icons": [
				{
					"url": "https://i.scdn.co/image/ab67616d00001e02ff9ca10b55ce82ae553c8228",
					"height": 300,
					"width": 300
				}
			],
			"id": "equal",
			"name": "EQUAL"
        }
        "#;

    let value = Json::parse_str(json).expect("the document is JSON");
    let decoded = Category::from_json(&value);
    assert!(decoded.is_ok(), "{:?}", decoded);
}
