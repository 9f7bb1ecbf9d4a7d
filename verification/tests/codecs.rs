//! Tests for the identifier and timestamp codecs and their wire dispatch.

use github_types::codec::identifier_decode;
use github_types::codec::identifier_encode;
use github_types::codec::timestamp_decode;
use github_types::codec::timestamp_encode;
use github_types::codec::RawScalar;
use github_types::codec::TransportFormat;
use github_types::datetime::timestamp_from_epoch_seconds;
use github_types::datetime::timestamp_from_epoch_seconds_unsigned;
use github_types::datetime::timestamp_from_string;
use github_types::datetime::timestamp_to_rfc3339;
use github_types::datetime::Timestamp;
use github_types::error::MalformedInput;
use github_types::oid::identifier_from_bytes;
use github_types::oid::identifier_from_hex;
use github_types::oid::identifier_to_bytes;
use github_types::oid::identifier_to_hex;
use github_types::oid::identifier_to_hex_upper;
use github_types::oid::Oid;

const EMPTY_TREE_HEX: &str = "4b825dc642cb6eb9a060e54bf8d69288fbee4904";

#[test]
fn hex_decode_then_encode_restores_lowercase() {
    let mixed = "4B825dc642CB6eb9a060E54bf8d69288FBEE4904";
    let oid = identifier_from_hex(mixed).unwrap();
    assert_eq!(identifier_to_hex(&oid), mixed.to_lowercase());

    let digits = "0123456789abcdef0123456789abcdef01234567";
    let oid = identifier_from_hex(digits).unwrap();
    assert_eq!(identifier_to_hex(&oid), digits);
}

#[test]
fn bytes_decode_then_encode_restores_buffer() {
    let buf: Vec<u8> = (0u8..20).collect();
    let oid = identifier_from_bytes(&buf).unwrap();
    assert_eq!(identifier_to_bytes(&oid), buf);
}

#[test]
fn empty_tree_constant_matches_its_hex() {
    let oid = identifier_from_hex(EMPTY_TREE_HEX).unwrap();
    assert_eq!(oid, Oid::empty_tree());
}

#[test]
fn zero_constant_matches_forty_zeros() {
    let oid = identifier_from_hex("0000000000000000000000000000000000000000").unwrap();
    assert_eq!(oid, Oid::zero());
    assert_eq!(Oid::default(), Oid::zero());
}

#[test]
fn hex_length_and_character_errors() {
    match identifier_from_hex("abc") {
        Err(MalformedInput::OddLength { found }) => assert_eq!(found, 3),
        other => panic!("expected an odd-length error, got {:?}", other),
    }
    let mut bad = String::from("zz");
    for _ in 0..38 {
        bad.push('0');
    }
    match identifier_from_hex(&bad) {
        Err(MalformedInput::InvalidCharacter { character }) => assert_eq!(character, 'z'),
        other => panic!("expected an invalid-character error, got {:?}", other),
    }
    match identifier_from_hex("4b825dc642cb6eb9a060e54bf8d69288fbee49") {
        Err(MalformedInput::InvalidLength { found, expected }) => {
            assert_eq!(found, 38);
            assert_eq!(expected, 40);
        },
        other => panic!("expected an invalid-length error, got {:?}", other),
    }
    assert_eq!(Oid::from_hex("abc"), Err(()));
    assert!(Oid::from_hex(EMPTY_TREE_HEX).is_ok());
}

#[test]
fn identifiers_order_byte_lexicographically() {
    let zero = Oid::zero();
    let tree = Oid::empty_tree();
    assert!(zero < tree);
    let small = identifier_from_bytes(&[0u8; 20]).unwrap();
    let mut one_buf = [0u8; 20];
    one_buf[19] = 1;
    let one = identifier_from_bytes(&one_buf).unwrap();
    assert!(small < one);
}

#[test]
fn bytes_length_error_reports_both_lengths() {
    match identifier_from_bytes(&[0u8; 19]) {
        Err(MalformedInput::InvalidLength { found, expected }) => {
            assert_eq!(found, 19);
            assert_eq!(expected, 20);
        },
        other => panic!("expected an invalid-length error, got {:?}", other),
    }
}

#[test]
fn uppercase_rendering() {
    let oid = identifier_from_hex(EMPTY_TREE_HEX).unwrap();
    assert_eq!(
        identifier_to_hex_upper(&oid),
        "4B825DC642CB6EB9A060E54BF8D69288FBEE4904"
    );
}

#[test]
fn identifier_wire_dispatch() {
    let oid = identifier_from_hex(EMPTY_TREE_HEX).unwrap();
    match identifier_encode(TransportFormat::HumanReadable, &oid) {
        RawScalar::Text(s) => assert_eq!(s, EMPTY_TREE_HEX),
        other => panic!("expected text, got {:?}", other),
    }
    match identifier_encode(TransportFormat::Binary, &oid) {
        RawScalar::Bytes(b) => assert_eq!(b, identifier_to_bytes(&oid)),
        other => panic!("expected bytes, got {:?}", other),
    }
    // Both wire forms decode back to the identical value.
    let text = identifier_encode(TransportFormat::HumanReadable, &oid);
    let bytes = identifier_encode(TransportFormat::Binary, &oid);
    assert_eq!(identifier_decode(&text).unwrap(), oid);
    assert_eq!(identifier_decode(&bytes).unwrap(), oid);
    // An integer is never a valid identifier shape.
    assert_eq!(
        identifier_decode(&RawScalar::Int(7)),
        Err(MalformedInput::UnexpectedShape)
    );
}

#[test]
fn epoch_zero_equals_unix_epoch_string() {
    let a = timestamp_from_epoch_seconds(0).unwrap();
    let b = timestamp_from_string("1970-01-01T00:00:00Z").unwrap();
    assert_eq!(a, b);
    assert_eq!(timestamp_to_rfc3339(&a), "1970-01-01T00:00:00Z");
}

#[test]
fn epoch_2019_equals_its_string() {
    let a = timestamp_from_epoch_seconds(1546300800).unwrap();
    let b = timestamp_from_string("2019-01-01T00:00:00Z").unwrap();
    assert_eq!(a, b);
    assert_eq!(timestamp_to_rfc3339(&a), "2019-01-01T00:00:00Z");
}

#[test]
fn format_then_parse_restores_timestamp() {
    let cases: [i64; 7] = [
        0,
        1546300800,
        -62167219200,
        253402300799,
        -1,
        951782400,
        1234567890,
    ];
    for secs in cases {
        let t = timestamp_from_epoch_seconds(secs).unwrap();
        let rendered = timestamp_to_rfc3339(&t);
        let back = timestamp_from_string(&rendered).unwrap();
        assert_eq!(back, t);
        assert_eq!(back.epoch_seconds(), secs);
    }
}

#[test]
fn parse_then_reencode_keeps_the_instant() {
    let cases = [
        "2019-05-20T12:34:56Z",
        "2019-05-20T12:34:56.789Z",
        "2019-05-20T12:34:56+02:00",
        "2019-05-20t12:34:56z",
        "1969-12-31T23:59:59-00:30",
        "2000-02-29T00:00:00Z",
    ];
    for s in cases {
        let t = timestamp_from_string(s).unwrap();
        let rendered = timestamp_to_rfc3339(&t);
        let back = timestamp_from_string(&rendered).unwrap();
        assert_eq!(back, t);
    }
}

#[test]
fn offsets_normalize_to_utc() {
    let plus = timestamp_from_string("2019-01-01T02:00:00+02:00").unwrap();
    let zulu = timestamp_from_string("2019-01-01T00:00:00Z").unwrap();
    assert_eq!(plus, zulu);
    let minus = timestamp_from_string("2018-12-31T22:00:00-02:00").unwrap();
    assert_eq!(minus, zulu);
}

#[test]
fn fractional_seconds_are_kept_and_trimmed() {
    let t = timestamp_from_string("2019-01-01T00:00:00.500Z").unwrap();
    assert_eq!(t.subsec_nanoseconds(), 500_000_000);
    assert_eq!(timestamp_to_rfc3339(&t), "2019-01-01T00:00:00.5Z");
    let u = timestamp_from_string("2019-01-01T00:00:00.000000001Z").unwrap();
    assert_eq!(u.subsec_nanoseconds(), 1);
    assert_eq!(timestamp_to_rfc3339(&u), "2019-01-01T00:00:00.000000001Z");
}

#[test]
fn leap_seconds_stand_in_at_the_end_of_a_utc_month() {
    // A leap second reads as the last representable nanosecond of the
    // second before it.
    let leap = timestamp_from_string("2016-12-31T23:59:60Z").unwrap();
    assert_eq!(
        leap,
        timestamp_from_string("2016-12-31T23:59:59.999999999Z").unwrap()
    );
    assert_eq!(leap.subsec_nanoseconds(), 999_999_999);
    assert!(timestamp_from_string("2016-06-30T23:59:60Z").is_ok());
    // The offset is applied before the position of the leap second is
    // judged.
    assert_eq!(timestamp_from_string("2017-01-01T08:59:60+09:00").unwrap(), leap);
    // Fractional digits on a leap second are subsumed by the stand-in.
    assert_eq!(timestamp_from_string("2016-12-31T23:59:60.5Z").unwrap(), leap);
    // Re-encoding keeps the stand-in instant.
    assert_eq!(timestamp_to_rfc3339(&leap), "2016-12-31T23:59:59.999999999Z");
    // Anywhere but the last second of a UTC month, second 60 is rejected.
    assert_eq!(
        timestamp_from_string("2016-12-30T23:59:60Z"),
        Err(MalformedInput::InvalidDateTime)
    );
    assert_eq!(
        timestamp_from_string("2016-12-31T23:59:60+00:01"),
        Err(MalformedInput::InvalidDateTime)
    );
    assert_eq!(
        timestamp_from_string("2016-12-31T23:58:60Z"),
        Err(MalformedInput::InvalidDateTime)
    );
    assert_eq!(
        timestamp_from_string("2016-12-31T23:59:61Z"),
        Err(MalformedInput::InvalidDateTime)
    );
}

#[test]
fn malformed_date_time_strings_are_rejected() {
    let cases = [
        "",
        "2019-01-01",
        "2019-01-01 00:00:00Z",
        "2019-01-01T00:00:00",
        "2019-01-01T00:00:00.Z",
        "2019-01-01T00:00:00.1234567890Z",
        "2019-02-29T00:00:00Z",
        "2019-00-10T00:00:00Z",
        "2019-13-10T00:00:00Z",
        "2019-01-32T00:00:00Z",
        "2019-01-01T24:00:00Z",
        "2019-01-01T23:60:00Z",
        "2019-01-01T23:59:60Z",
        "2019-01-01T00:00:00+24:00",
        "2019-01-01T00:00:00+00:60",
        "0000-01-01T00:00:00+00:01",
    ];
    for s in cases {
        assert_eq!(
            timestamp_from_string(s),
            Err(MalformedInput::InvalidDateTime),
            "{} should be rejected",
            s
        );
    }
}

#[test]
fn representable_range_boundaries() {
    let min = timestamp_from_string("0000-01-01T00:00:00Z").unwrap();
    assert_eq!(min.epoch_seconds(), -62167219200);
    let max = timestamp_from_string("9999-12-31T23:59:59Z").unwrap();
    assert_eq!(max.epoch_seconds(), 253402300799);
    assert!(min < max);
    match timestamp_from_epoch_seconds(-62167219201) {
        Err(MalformedInput::InvalidInstant { seconds }) => assert_eq!(seconds, -62167219201),
        other => panic!("expected an invalid-instant error, got {:?}", other),
    }
    match timestamp_from_epoch_seconds(253402300800) {
        Err(MalformedInput::InvalidInstant { seconds }) => assert_eq!(seconds, 253402300800),
        other => panic!("expected an invalid-instant error, got {:?}", other),
    }
}

#[test]
fn unsigned_epoch_seconds_are_range_checked() {
    let a = timestamp_from_epoch_seconds_unsigned(1546300800).unwrap();
    assert_eq!(a, timestamp_from_epoch_seconds(1546300800).unwrap());
    assert!(timestamp_from_epoch_seconds_unsigned(253402300800).is_err());
    assert!(timestamp_from_epoch_seconds_unsigned(u64::MAX).is_err());
}

#[test]
fn timestamp_wire_dispatch() {
    let t = timestamp_from_epoch_seconds(1546300800).unwrap();
    match timestamp_encode(&t) {
        RawScalar::Text(s) => assert_eq!(s, "2019-01-01T00:00:00Z"),
        other => panic!("expected text, got {:?}", other),
    }
    // A human-readable transport probes both string and integer shapes.
    let from_text = timestamp_decode(
        TransportFormat::HumanReadable,
        &RawScalar::Text(String::from("2019-01-01T00:00:00Z")),
    );
    assert_eq!(from_text.unwrap(), t);
    let from_int = timestamp_decode(TransportFormat::HumanReadable, &RawScalar::Int(1546300800));
    assert_eq!(from_int.unwrap(), t);
    let from_uint = timestamp_decode(TransportFormat::Binary, &RawScalar::UInt(1546300800));
    assert_eq!(from_uint.unwrap(), t);
    // A binary transport always expects the integer form.
    assert_eq!(
        timestamp_decode(
            TransportFormat::Binary,
            &RawScalar::Text(String::from("2019-01-01T00:00:00Z")),
        ),
        Err(MalformedInput::UnexpectedShape)
    );
    assert_eq!(
        timestamp_decode(TransportFormat::HumanReadable, &RawScalar::Bytes(vec![1, 2])),
        Err(MalformedInput::UnexpectedShape)
    );
}

#[test]
fn clock_readings_are_clamped_into_range() {
    let epoch = Timestamp::from_clock_reading(0, 1);
    assert_eq!(epoch.epoch_seconds(), 0);
    assert_eq!(epoch.subsec_nanoseconds(), 1);
    let early = Timestamp::from_clock_reading(i64::MIN, 250_000_000);
    assert_eq!(early.epoch_seconds(), -62167219200);
    assert_eq!(early.subsec_nanoseconds(), 250_000_000);
    let late = Timestamp::from_clock_reading(i64::MAX, 0);
    assert_eq!(late.epoch_seconds(), 253402300799);
    let in_range = Timestamp::from_clock_reading(1546300800, 0);
    assert_eq!(in_range, timestamp_from_epoch_seconds(1546300800).unwrap());
}

#[test]
fn now_produces_a_round_trippable_instant() {
    let t = Timestamp::now();
    let rendered = timestamp_to_rfc3339(&t);
    let back = timestamp_from_string(&rendered).unwrap();
    assert_eq!(back, t);
    // The clock reads a plausible present-day instant, not a constant.
    assert!(t.epoch_seconds() > 1546300800);
}

#[test]
fn error_messages_carry_the_diagnostics() {
    assert_eq!(
        identifier_from_bytes(&[0u8; 19]).unwrap_err().message(),
        "invalid length 19, expected 20"
    );
    assert_eq!(
        identifier_from_hex("abc").unwrap_err().message(),
        "odd number of hexadecimal digits: 3"
    );
    let mut bad = String::from("zz");
    for _ in 0..38 {
        bad.push('0');
    }
    assert_eq!(
        identifier_from_hex(&bad).unwrap_err().message(),
        "invalid hexadecimal character: z"
    );
    assert_eq!(
        timestamp_from_epoch_seconds(-62167219201).unwrap_err().message(),
        "seconds outside the representable instants: -62167219201"
    );
    assert_eq!(
        timestamp_from_epoch_seconds(253402300800).unwrap_err().message(),
        "seconds outside the representable instants: 253402300800"
    );
    assert_eq!(
        timestamp_from_string("nonsense").unwrap_err().message(),
        "malformed RFC 3339 date-time string"
    );
    assert_eq!(
        identifier_decode(&RawScalar::UInt(1)).unwrap_err().message(),
        "unexpected shape of a raw wire value"
    );
}
