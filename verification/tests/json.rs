use spotify_web_api::api::error::DecodeError;
use spotify_web_api::decode::{field, json_integer, list, FromJson};
use spotify_web_api::json::Json;

#[test]
fn documents_are_read_as_trees() {
    let value = Json::parse_str(r#"{"b": [1, -2, 2.5, 1e3, true, null, "x"], "a": {}}"#).unwrap();
    assert_eq!(
        value,
        Json::Object(vec![
            ("a".to_string(), Json::Object(vec![])),
            (
                "b".to_string(),
                Json::Array(vec![
                    Json::Number("1".to_string()),
                    Json::Number("-2".to_string()),
                    Json::Number("2.5".to_string()),
                    Json::Number("1000.0".to_string()),
                    Json::Bool(true),
                    Json::Null,
                    Json::Str("x".to_string()),
                ])
            ),
        ])
    );
    assert_eq!(Json::parse(b"{"), None);
    assert_eq!(Json::parse_str(""), None);
    assert_eq!(Json::parse(b"\xff"), None);
}

#[test]
fn trees_are_written_as_documents() {
    let value = Json::Object(vec![
        ("b".to_string(), Json::from_usize(7)),
        ("a".to_string(), Json::from_str("x\"y")),
        ("b".to_string(), Json::from_bool(false)),
        ("c".to_string(), Json::Array(vec![Json::from_u64(u64::MAX), Json::Null])),
    ]);
    assert_eq!(
        String::from_utf8(value.to_vec().unwrap()).unwrap(),
        r#"{"a":"x\"y","b":false,"c":[18446744073709551615,null]}"#
    );
    assert_eq!(Json::Number("1.50".to_string()).to_vec().unwrap(), b"1.5");
    assert_eq!(Json::Number("12x".to_string()).to_vec(), None);
    assert_eq!(Json::Array(vec![Json::Number(String::new())]).to_vec(), None);
}

#[test]
fn members_are_found_by_name() {
    let value = Json::parse_str(r#"{"a": 1, "b": "two"}"#).unwrap();
    assert_eq!(value.get("a"), Some(&Json::Number("1".to_string())));
    assert_eq!(value.get("b").and_then(Json::as_str), Some("two"));
    assert_eq!(value.get("c"), None);
    assert_eq!(Json::Null.get("a"), None);
    assert_eq!(value.get("a").unwrap().as_str(), None);
    assert!(Json::Null.is_blank());
    assert!(Json::Array(vec![]).is_blank());
    assert!(Json::Object(vec![]).is_blank());
    assert!(!Json::Array(vec![Json::Null]).is_blank());
    assert!(!Json::Str(String::new()).is_blank());
    assert!(!Json::Bool(false).is_blank());
    assert_eq!(value.duplicate(), value);
}

#[test]
fn integers_are_read_in_their_range() {
    let number = |text: &str| Json::Number(text.to_string());
    assert_eq!(u8::from_json(&number("255")), Ok(255));
    assert_eq!(u8::from_json(&number("256")), Err(DecodeError::ExpectedInteger));
    assert_eq!(u8::from_json(&number("-1")), Err(DecodeError::ExpectedInteger));
    assert_eq!(u8::from_json(&number("1.0")), Err(DecodeError::ExpectedInteger));
    assert_eq!(u8::from_json(&Json::Str("1".to_string())), Err(DecodeError::ExpectedInteger));
    assert_eq!(u16::from_json(&number("65535")), Ok(65535));
    assert_eq!(u32::from_json(&number("4294967296")), Err(DecodeError::ExpectedInteger));
    assert_eq!(u64::from_json(&number("18446744073709551615")), Ok(u64::MAX));
    assert_eq!(u64::from_json(&number("18446744073709551616")), Err(DecodeError::ExpectedInteger));
    assert_eq!(usize::from_json(&number("20")), Ok(20));
    assert_eq!(i64::from_json(&number("-9223372036854775808")), Ok(i64::MIN));
    assert_eq!(i64::from_json(&number("9223372036854775808")), Err(DecodeError::ExpectedInteger));
    assert_eq!(json_integer(&number("-5")), Some(-5));
    assert_eq!(json_integer(&Json::Null), None);
}

#[test]
fn values_are_read_by_their_shape() {
    assert_eq!(bool::from_json(&Json::Bool(true)), Ok(true));
    assert_eq!(bool::from_json(&Json::Null), Err(DecodeError::ExpectedBool));
    assert_eq!(String::from_json(&Json::Str("a".to_string())), Ok("a".to_string()));
    assert_eq!(String::from_json(&Json::Null), Err(DecodeError::ExpectedString));
    assert_eq!(Option::<bool>::from_json(&Json::Null), Ok(None));
    assert_eq!(Option::<bool>::from_json(&Json::Bool(false)), Ok(Some(false)));
    assert_eq!(
        Option::<bool>::from_json(&Json::Str(String::new())),
        Err(DecodeError::ExpectedBool)
    );
    assert_eq!(Vec::<bool>::from_json(&Json::Null), Err(DecodeError::ExpectedArray));
    assert_eq!(
        Vec::<Option<bool>>::from_json(&Json::parse_str("[true, null]").unwrap()),
        Ok(vec![Some(true), None])
    );
    assert_eq!(
        Vec::<bool>::from_json(&Json::parse_str("[true, 1, null]").unwrap()),
        Err(DecodeError::ExpectedBool)
    );
}

#[test]
fn members_are_read_by_their_type() {
    let value = Json::parse_str(r#"{"a": true, "n": null, "l": [false]}"#).unwrap();
    assert_eq!(field::<bool>(&value, "a"), Ok(true));
    assert_eq!(field::<bool>(&value, "b"), Err(DecodeError::MissingField));
    assert_eq!(field::<bool>(&value, "n"), Err(DecodeError::ExpectedBool));
    assert_eq!(field::<Option<bool>>(&value, "b"), Ok(None));
    assert_eq!(field::<Option<bool>>(&value, "n"), Ok(None));
    assert_eq!(field::<bool>(&Json::Null, "a"), Err(DecodeError::ExpectedObject));
    assert_eq!(list::<bool>(&value, "l"), Ok(vec![false]));
    assert_eq!(list::<bool>(&value, "m"), Ok(vec![]));
    assert_eq!(list::<bool>(&value, "n"), Err(DecodeError::ExpectedArray));
    assert_eq!(list::<bool>(&Json::Null, "l"), Err(DecodeError::ExpectedObject));
}
