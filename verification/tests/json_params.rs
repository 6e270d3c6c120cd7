use spotify_web_api::api::JsonParams;
use spotify_web_api::json::Json;

#[test]
fn json_params_clean() {
    let dirty = Json::parse_str(
        r#"{
            "null": null,
            "int": 1,
            "str": "str",
            "array": [null],
            "empty_array": [],
            "object": {
                "nested_null": null,
                "nested_empty_array": [],
                "nested_empty_object": {}
            },
            "empty_object": {}
        }"#,
    )
    .unwrap();

    let clean = Json::parse_str(
        r#"{
            "int": 1,
            "str": "str",
            "array": [null],
            "object": {
                "nested_null": null,
                "nested_empty_array": [],
                "nested_empty_object": {}
            }
        }"#,
    )
    .unwrap();

    assert_eq!(JsonParams::clean(dirty), clean);
}

#[test]
fn cleaning_leaves_what_is_no_object() {
    assert_eq!(JsonParams::clean(Json::Null), Json::Null);
    assert_eq!(
        JsonParams::clean(Json::Array(vec![Json::Null])),
        Json::Array(vec![Json::Null])
    );
}

#[test]
fn json_body_is_the_written_value() {
    let value = Json::parse_str(r#"{"b": [1, 2.5, -3], "a": "x"}"#).unwrap();
    let (mime, body) = JsonParams::into_body(&value).unwrap().unwrap();
    assert_eq!(mime, "application/json");
    assert_eq!(String::from_utf8(body).unwrap(), r#"{"a":"x","b":[1,2.5,-3]}"#);
}

#[test]
fn json_body_of_a_bad_number_is_refused() {
    let value = Json::Array(vec![Json::Number("one".to_string())]);
    assert!(JsonParams::into_body(&value).is_err());
}
