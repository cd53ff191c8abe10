use portonet::decimal::{chars_of, format_i64, parse_i64};
use portonet::duration::{deserialize_duration, serialize_duration, DurationError, MAX_SPAN_SECS};

fn parse(s: &str) -> Option<i64> {
    parse_i64(&chars_of(s))
}

#[test]
fn parse_i64_accepts_signed_numerals() {
    assert_eq!(parse("0"), Some(0));
    assert_eq!(parse("42"), Some(42));
    assert_eq!(parse("+42"), Some(42));
    assert_eq!(parse("-42"), Some(-42));
    assert_eq!(parse("007"), Some(7));
    assert_eq!(parse("9223372036854775807"), Some(i64::MAX));
    assert_eq!(parse("-9223372036854775808"), Some(i64::MIN));
}

#[test]
fn parse_i64_refuses_what_from_str_refuses() {
    for s in ["", "+", "-", " 1", "1 ", "1_000", "12a", "--1", "+-1", "9223372036854775808", "-9223372036854775809", "99999999999999999999"] {
        assert_eq!(parse(s), None, "{s}");
        assert_eq!(s.parse::<i64>().ok(), None, "{s}");
    }
}

#[test]
fn parse_i64_agrees_with_std() {
    for s in ["1", "-1", "+0", "-0", "123456789", "-987654321", "00000000000000000000012"] {
        assert_eq!(parse(s), s.parse::<i64>().ok(), "{s}");
    }
}

#[test]
fn format_i64_writes_decimal() {
    for n in [0i64, 7, 10, -1, -10, 1234567890, i64::MAX, i64::MIN] {
        assert_eq!(format_i64(n), n.to_string());
        assert_eq!(parse(&format_i64(n)), Some(n));
    }
}

#[test]
fn deserialize_duration_reads_units() {
    assert_eq!(deserialize_duration("12h"), Ok(12 * 3600));
    assert_eq!(deserialize_duration("3d"), Ok(3 * 86400));
    assert_eq!(deserialize_duration("2m"), Ok(2 * 30 * 86400));
    assert_eq!(deserialize_duration("-1d"), Ok(-86400));
    assert_eq!(deserialize_duration("+5h"), Ok(5 * 3600));
    assert_eq!(deserialize_duration("0m"), Ok(0));
}

#[test]
fn deserialize_duration_refuses_bad_text() {
    for s in ["", "h", "12", "12s", "1.5h", "d", "12 h", "h12", "1hh"] {
        assert_eq!(deserialize_duration(s), Err(DurationError::InvalidFormat), "{s}");
    }
}

#[test]
fn deserialize_duration_out_of_range() {
    // 2562047788015 hours is the last whole number of hours a time delta holds.
    assert_eq!(deserialize_duration("2562047788015h"), Ok(2562047788015 * 3600));
    assert_eq!(deserialize_duration("2562047788016h"), Err(DurationError::OutOfRange));
    assert_eq!(deserialize_duration("106751991167d"), Ok(106751991167 * 86400));
    assert_eq!(deserialize_duration("106751991168d"), Err(DurationError::OutOfRange));
    assert_eq!(deserialize_duration("9223372036854775807m"), Err(DurationError::OutOfRange));
    assert!(MAX_SPAN_SECS == i64::MAX / 1000);
}

#[test]
fn deserialize_duration_matches_chrono_bounds() {
    for h in [2562047788015i64, 2562047788016, -2562047788015, -2562047788016] {
        let ours = deserialize_duration(&format!("{h}h")).ok();
        let chrono = chrono::TimeDelta::try_hours(h).map(|d| d.num_seconds());
        assert_eq!(ours, chrono, "{h}");
    }
}

#[test]
fn serialize_duration_picks_the_largest_whole_unit() {
    assert_eq!(serialize_duration(12 * 3600), "12h");
    assert_eq!(serialize_duration(48 * 3600), "2d");
    assert_eq!(serialize_duration(3 * 86400), "3d");
    assert_eq!(serialize_duration(60 * 86400), "2m");
    assert_eq!(serialize_duration(0), "0m");
    assert_eq!(serialize_duration(-5 * 3600), "-5h");
    assert_eq!(serialize_duration(-30 * 86400), "-1m");
    assert_eq!(serialize_duration(25 * 3600), "25h");
}

#[test]
fn duration_round_trip() {
    for s in ["1h", "23h", "25h", "1d", "29d", "31d", "1m", "12m", "-7h", "-3d", "-2m"] {
        let secs = deserialize_duration(s).unwrap();
        assert_eq!(deserialize_duration(&serialize_duration(secs)), Ok(secs), "{s}");
    }
    // "48h" is written back as "2d": the same span, the larger unit.
    assert_eq!(serialize_duration(deserialize_duration("48h").unwrap()), "2d");
}
