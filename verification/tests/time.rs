use spotify_web_api::time::Timestamp;

#[test]
fn times_are_ordered() {
    let a = Timestamp { secs: 10, nanos: 5 };
    assert!(Timestamp { secs: 11, nanos: 0 }.after(&a));
    assert!(Timestamp { secs: 10, nanos: 6 }.after(&a));
    assert!(!a.after(&a));
    assert!(!Timestamp { secs: 10, nanos: 4 }.after(&a));
    assert!(!Timestamp { secs: -3, nanos: 999 }.after(&a));
}

#[test]
fn seconds_are_added_where_they_can_be_held() {
    let a = Timestamp { secs: 10, nanos: 5 };
    assert_eq!(a.plus_seconds(3600), Some(Timestamp { secs: 3610, nanos: 5 }));
    assert_eq!(a.plus_seconds(0), Some(a));
    assert_eq!(a.plus_seconds(u64::MAX), None);
    assert_eq!(
        Timestamp { secs: -10, nanos: 0 }.plus_seconds(i64::MAX as u64 + 10),
        Some(Timestamp { secs: i64::MAX, nanos: 0 })
    );
    assert_eq!(Timestamp { secs: i64::MAX, nanos: 0 }.plus_seconds(1), None);
}

#[test]
fn times_are_written_and_read_in_rfc_3339() {
    let time = Timestamp { secs: 1_516_991_409, nanos: 453_829_000 };
    assert_eq!(time.to_rfc3339().unwrap(), "2018-01-26T18:30:09Z");
    assert_eq!(time.to_rfc3339_precise().unwrap(), "2018-01-26T18:30:09.453829Z");
    assert_eq!(Timestamp::parse("2018-01-26T18:30:09.453829Z"), Some(time));
    assert_eq!(
        Timestamp::parse("2018-01-26T20:30:09+02:00"),
        Some(Timestamp { secs: 1_516_991_409, nanos: 0 })
    );
    assert_eq!(Timestamp::parse("yesterday"), None);
    assert_eq!(Timestamp { secs: i64::MIN, nanos: 0 }.to_rfc3339(), None);
}

#[test]
fn the_clock_moves_on() {
    let now = Timestamp::now();
    assert!(now.after(&Timestamp { secs: 1_600_000_000, nanos: 0 }));
    assert!(now.nanos < 1_000_000_000);
}
