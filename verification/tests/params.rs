use spotify_web_api::api::ParamValue;
use spotify_web_api::time::Timestamp;

#[test]
fn bool_str() {
    let items = &[(true, "true"), (false, "false")];

    for (i, s) in items {
        assert_eq!((*i).as_value(), *s);
    }
}

#[test]
fn test_str_as_value() {
    let items = &["foo", "bar"];

    for i in items {
        assert_eq!(i.as_value(), *i);
    }
}

#[test]
fn test_string_as_value() {
    let items = &["foo", "bar"];

    for i in items {
        let s = String::from(*i);
        assert_eq!(s.as_value(), s);
    }
}

#[test]
fn numbers_as_values() {
    assert_eq!(0u8.as_value(), "0");
    assert_eq!(255u8.as_value(), "255");
    assert_eq!(4_294_967_295u32.as_value(), "4294967295");
    assert_eq!(u64::MAX.as_value(), "18446744073709551615");
    assert_eq!(1_000usize.as_value(), "1000");
    assert_eq!(0i64.as_value(), "0");
    assert_eq!((-42i64).as_value(), "-42");
    assert_eq!(i64::MIN.as_value(), "-9223372036854775808");
    assert_eq!(i64::MAX.as_value(), "9223372036854775807");
}

#[test]
fn time_as_value_has_whole_seconds() {
    let time = Timestamp { secs: 1_516_991_409, nanos: 453_829_000 };
    assert_eq!(time.as_value(), "2018-01-26T18:30:09Z");
    assert_eq!(Timestamp { secs: 0, nanos: 0 }.as_value(), "1970-01-01T00:00:00Z");
    assert_eq!(Timestamp { secs: i64::MAX, nanos: 0 }.as_value(), "");
}
