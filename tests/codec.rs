use humantime_serde::duration::whole_numbers_within;
use humantime_serde::timestamp::{MAX_TIMESTAMP_SECS, MIN_TIMESTAMP_SECS};
use humantime_serde::{
    ConversionError, Duration, Expecting, OffsetTimestamp, Serde, TextDecode, TextEncode,
    UtcTimestamp,
};

#[test]
fn duration_round_trip_short_form() {
    let d = Duration::decode("15 seconds").unwrap();
    assert_eq!(d.as_secs(), 15);
    assert_eq!(d.subsec_nanos(), 0);
    assert_eq!(d.encode().unwrap(), "15s");
}

#[test]
fn duration_compound_forms() {
    let d = Duration::decode("2 days 3h").unwrap();
    assert_eq!(d, Duration::from_secs(2 * 86400 + 3 * 3600));
    assert_eq!(Duration::from_secs(9420).encode().unwrap(), "2h 37m");
    assert_eq!(Duration::new(0, 32_000_000).encode().unwrap(), "32ms");
}

#[test]
fn duration_zero() {
    let d = Duration::decode("0").unwrap();
    assert_eq!(d, Duration::from_secs(0));
    assert_eq!(d.encode().unwrap(), "0s");
}

#[test]
fn duration_new_carries_nanos() {
    let d = Duration::new(1, 2_500_000_000);
    assert_eq!(d.as_secs(), 3);
    assert_eq!(d.subsec_nanos(), 500_000_000);
}

#[test]
fn invalid_duration_rejected() {
    let got = Duration::decode("not a duration");
    assert_eq!(
        got,
        Err(ConversionError::InvalidValue {
            text: "not a duration".to_string(),
            expecting: Expecting::Duration,
        })
    );
}

#[test]
fn invalid_timestamp_rejected() {
    let want = Err(ConversionError::InvalidValue {
        text: "not a date".to_string(),
        expecting: Expecting::Timestamp,
    });
    assert_eq!(UtcTimestamp::decode("not a date"), want);
    let got = OffsetTimestamp::decode("not a date");
    assert!(matches!(got, Err(ConversionError::InvalidValue { .. })));
}

#[test]
fn expecting_descriptions() {
    assert_eq!(Expecting::Duration.description(), "a duration");
    assert_eq!(Expecting::Timestamp.description(), "a timestamp");
}

#[test]
fn utc_timestamp_round_trip() {
    let t = UtcTimestamp::decode("2018-05-11T18:28:30Z").unwrap();
    assert_eq!(t, UtcTimestamp { secs: 1_526_063_310, nanos: 0 });
    assert_eq!(t.encode().unwrap(), "2018-05-11T18:28:30Z");
}

#[test]
fn utc_timestamp_drops_offset() {
    let t = UtcTimestamp::decode("2018-05-11T18:28:30+02:00").unwrap();
    assert_eq!(t, UtcTimestamp { secs: 1_526_063_310 - 7200, nanos: 0 });
    assert_eq!(t.encode().unwrap(), "2018-05-11T16:28:30Z");
}

#[test]
fn utc_timestamp_drops_fraction_on_encode() {
    let t = UtcTimestamp::decode("2018-05-11T18:28:30.25Z").unwrap();
    assert_eq!(t.nanos, 250_000_000);
    assert_eq!(t.encode().unwrap(), "2018-05-11T18:28:30Z");
}

#[test]
fn offset_timestamp_keeps_offset() {
    let t = OffsetTimestamp::decode("2018-05-11T18:28:30+02:00").unwrap();
    assert_eq!(t.offset, 7200);
    assert_eq!(t.to_utc(), UtcTimestamp { secs: 1_526_063_310 - 7200, nanos: 0 });
    assert_eq!(t.encode().unwrap(), "2018-05-11T18:28:30+02:00");
}

#[test]
fn offset_timestamp_zero_offset_is_z() {
    let t = OffsetTimestamp { secs: 1_526_063_310, nanos: 0, offset: 0 };
    assert_eq!(t.encode().unwrap(), "2018-05-11T18:28:30Z");
    let west = OffsetTimestamp { secs: 1_526_063_310, nanos: 0, offset: -5 * 3600 };
    assert_eq!(west.encode().unwrap(), "2018-05-11T13:28:30-05:00");
}

#[test]
fn timestamp_out_of_range() {
    let t = UtcTimestamp { secs: i64::MAX, nanos: 0 };
    assert_eq!(t.encode(), Err(ConversionError::OutOfRange));
    let bad_offset = OffsetTimestamp { secs: 0, nanos: 0, offset: 86_400 };
    assert_eq!(bad_offset.encode(), Err(ConversionError::OutOfRange));
}

#[test]
fn wrapper_unwraps_to_value() {
    let d = Duration::from_secs(90);
    assert_eq!(Serde::new(d).into_inner(), d);
    assert_eq!(Serde::from(d).into_inner(), d);
    assert_eq!(*Serde::new(d).get(), d);
}

#[test]
fn wrapper_owned_and_borrowed_encode_alike() {
    let d = Duration::from_secs(90);
    assert_eq!(Serde::new(d).encode(), Serde::new(&d).encode());
    assert_eq!(Serde::new(d).encode().unwrap(), "1m 30s");
    let t = UtcTimestamp { secs: 1_526_063_310, nanos: 0 };
    assert_eq!(Serde::new(t).encode(), Serde::new(&t).encode());
}

#[test]
fn wrapper_decode() {
    let w: Serde<Duration> = Serde::decode("1m 30s").unwrap();
    assert_eq!(w.into_inner(), Duration::from_secs(90));
    let bad: Result<Serde<UtcTimestamp>, _> = Serde::decode("yesterday");
    assert!(bad.is_err());
}

#[test]
fn duration_from_parsed_values() {
    let d = Duration::from_parsed("ignored", Some((15, 7))).unwrap();
    assert_eq!(d.as_secs(), 15);
    assert_eq!(d.subsec_nanos(), 7);
    assert_eq!(
        Duration::from_parsed("soon", None),
        Err(ConversionError::InvalidValue { text: "soon".to_string(), expecting: Expecting::Duration })
    );
}

#[test]
fn timestamps_from_parsed_values() {
    let parsed = Some((100, 5, -3600));
    assert_eq!(
        OffsetTimestamp::from_parsed("t", parsed),
        Ok(OffsetTimestamp { secs: 100, nanos: 5, offset: -3600 })
    );
    assert_eq!(UtcTimestamp::from_parsed("t", parsed), Ok(UtcTimestamp { secs: 100, nanos: 5 }));
    assert_eq!(
        UtcTimestamp::from_parsed("t", None),
        Err(ConversionError::InvalidValue { text: "t".to_string(), expecting: Expecting::Timestamp })
    );
}

#[test]
fn duration_with_too_many_whole_digits_rejected() {
    for text in ["18446744073709551615s 500ms 500ms", "1844674407 3709551615s 500ms 500ms"] {
        assert_eq!(
            Duration::decode(text),
            Err(ConversionError::InvalidValue { text: text.to_string(), expecting: Expecting::Duration })
        );
    }
}

#[test]
fn duration_whole_digit_bound_edges() {
    let d = Duration::decode("12345678901s").unwrap();
    assert_eq!(d.as_secs(), 12_345_678_901);
    let d = Duration::decode("12.123456789s").unwrap();
    assert_eq!(d, Duration::new(12, 123_456_789));
}

#[test]
fn whole_number_weights() {
    assert!(whole_numbers_within(""));
    assert!(whole_numbers_within("15 seconds"));
    assert!(whole_numbers_within("12days 10h 30m 45s 123ms 1us"));
    assert!(whole_numbers_within("12345678901s"));
    assert!(whole_numbers_within("1.123456789012345s"));
    assert!(!whole_numbers_within("123456789012s"));
    assert!(!whole_numbers_within("123456 789012s"));
    assert!(!whole_numbers_within("12345678901s 12345678901m"));
}

#[test]
fn duration_encoder_output_decodes_back() {
    let d = Duration::new(12 * 86400 + 10 * 3600 + 30 * 60 + 45, 123_001_000);
    let text = d.encode().unwrap();
    assert_eq!(text, "12days 10h 30m 45s 123ms 1us");
    assert_eq!(d.to_text(), text);
    assert_eq!(Duration::decode(&text), Ok(d));
}

#[test]
fn wrapper_get_mut_replaces_value() {
    let mut w = Serde::new(Duration::from_secs(1));
    *w.get_mut() = Duration::from_secs(2);
    assert_eq!(w.into_inner(), Duration::from_secs(2));
}

#[test]
fn timestamp_range_edges() {
    assert!(UtcTimestamp { secs: MAX_TIMESTAMP_SECS, nanos: 0 }.encode().is_ok());
    assert!(UtcTimestamp { secs: MIN_TIMESTAMP_SECS, nanos: 0 }.encode().is_ok());
    assert_eq!(
        UtcTimestamp { secs: MAX_TIMESTAMP_SECS + 1, nanos: 0 }.encode(),
        Err(ConversionError::OutOfRange)
    );
    assert_eq!(
        UtcTimestamp { secs: MIN_TIMESTAMP_SECS - 1, nanos: 0 }.encode(),
        Err(ConversionError::OutOfRange)
    );
    let past_end = OffsetTimestamp { secs: MAX_TIMESTAMP_SECS, nanos: 0, offset: 3600 };
    assert_eq!(past_end.encode(), Err(ConversionError::OutOfRange));
    let before_start = OffsetTimestamp { secs: MIN_TIMESTAMP_SECS, nanos: 0, offset: -1 };
    assert_eq!(before_start.encode(), Err(ConversionError::OutOfRange));
    let inside = OffsetTimestamp { secs: MAX_TIMESTAMP_SECS - 3600, nanos: 0, offset: 3600 };
    assert!(inside.encode().is_ok());
}
