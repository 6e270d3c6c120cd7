use spotify_web_api::decode::FromJson;
use spotify_web_api::json::Json;
use spotify_web_api::model::{CurrentUserProfile, UserProfile};

#[test]
fn current_user_pofile() {
    let json = r#"
       	{
			"country": "US",
			"display_name": "string",
			"email": "string",
			"explicit_content": {
				"filter_enabled": false,
				"filter_locked": false
			},
			"external_urls": {
				"spotify": "string"
			},
			"followers": {
				"href": "string",
				"total": 0
			},
			"href": "string",
			"id": "string",
			"images": [
				{
					"url": "https://i.scdn.co/image/ab67616d00001e02ff9ca10b55ce82ae553c8228",
					"height": 300,
					"width": 300
				}
			],
			"product": "premium",
			"type": "user",
			"uri": "string"
        }
        "#;

    let value = Json::parse_str(json).expect("the document is JSON");
    let decoded = CurrentUserProfile::from_json(&value);
    assert!(decoded.is_ok(), "{:?}", decoded);
}

#[test]
fn user_profile() {
    let json = r#"
       	{
			"display_name": "string",
			"external_urls": {
				"spotify": "string"
			},
			"followers": {
				"href": "string",
				"total": 0
			},
			"href": "string",
			"id": "string",
			"images": [
				{
					"url": "https://i.scdn.co/image/ab67616d00001e02ff9ca10b55ce82ae553c8228",
					"height": 300,
					"width": 300
				}
			],
			"type": "user",
			"uri": "string"
        }
        "#;

    let value = Json::parse_str(json).expect("the document is JSON");
    let decoded = UserProfile::from_json(&value);
    assert!(decoded.is_ok(), "{:?}", decoded);
}
