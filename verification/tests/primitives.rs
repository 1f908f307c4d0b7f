use task_lifecycle::deadline::{
    format_local_timestamp_with_offset, format_timestamp, format_timestamp_at_offset,
    parse_timestamp_seconds, timestamp_has_passed, timestamp_is_future, timestamp_seconds,
    FIRST_DATED_SECOND, LAST_DATED_SECOND, LOCAL_TIME_FORMAT,
};
use task_lifecycle::json::{scalar_i32, scalar_i64, scalar_string, InvalidJson, Json};
use task_lifecycle::status::Status;
use task_lifecycle::text::{
    eq_ignore_ascii_case, i64_to_text, parse_i32, parse_i64, starts_with, text_before,
    to_ascii_lower, trim, u64_to_text, usize_to_text,
};

fn json(text: &str) -> Json {
    Json::parse(text).unwrap()
}

#[test]
fn trimming_knows_unicode_white_space() {
    for raw in ["", " ", "\t a b \n", "\u{a0}x\u{3000}", "\u{2003}\u{85}", "a"] {
        assert_eq!(trim(raw), raw.trim());
    }
}

#[test]
fn integers_read_as_the_standard_library_reads_them() {
    for raw in [
        "0",
        "-0",
        "+5",
        "-17",
        "",
        "+",
        "-",
        " 1",
        "1 ",
        "1_0",
        "9223372036854775807",
        "9223372036854775808",
        "-9223372036854775808",
        "-9223372036854775809",
        "000000000000000000000000000012",
        "2147483647",
        "2147483648",
        "-2147483648",
        "-2147483649",
        "٣",
    ] {
        assert_eq!(parse_i64(raw), raw.parse::<i64>().ok(), "{raw:?}");
        assert_eq!(parse_i32(raw), raw.parse::<i32>().ok(), "{raw:?}");
    }
}

#[test]
fn written_integers_read_back() {
    for n in [0, 7, -7, 10, 1_700_000_000, i64::MAX, i64::MIN] {
        assert_eq!(i64_to_text(n), n.to_string());
        assert_eq!(parse_i64(&i64_to_text(n)), Some(n));
    }
    assert_eq!(u64_to_text(u64::MAX), "18446744073709551615");
    assert_eq!(usize_to_text(120), "120");
}

#[test]
fn ascii_case_and_prefixes() {
    assert_eq!(to_ascii_lower("Job_ÄCreated"), "job_Äcreated");
    assert!(eq_ignore_ascii_case("SyStem", "system"));
    assert!(!eq_ignore_ascii_case("systém", "SYSTEM"));
    assert!(starts_with("sub_open", "sub_"));
    assert!(!starts_with("sub", "sub_"));
}

#[test]
fn text_order_is_that_of_code_points() {
    let mut texts = vec!["b", "", "a", "aa", "Z", "ä", "\u{10000}", "\u{ffff}"];
    texts.sort();
    for pair in texts.windows(2) {
        assert!(text_before(pair[0], pair[1]));
        assert!(!text_before(pair[1], pair[0]));
        assert!(!text_before(pair[0], pair[0]));
    }
}

#[test]
fn json_values_are_read_from_text() {
    assert_eq!(Json::parse("{"), Err(InvalidJson));
    assert_eq!(Json::parse(""), Err(InvalidJson));
    assert_eq!(json("null"), Json::Null);
    assert_eq!(json("true"), Json::Bool(true));
    assert_eq!(json("\"a\\u00e9\""), Json::text("aé"));
    assert_eq!(json("[1,\"x\"]"), Json::Array(vec![Json::integer(1), Json::text("x")]));
    let object = json(r#"{"b":{"c":[null]},"a":-3}"#);
    assert!(object.is_object());
    assert_eq!(object.get("a"), Some(&Json::integer(-3)));
    assert_eq!(object.get("b").and_then(|b| b.get("c")), Some(&Json::Array(vec![Json::Null])));
    assert_eq!(object.get("missing"), None);
    assert_eq!(json("[]").get("a"), None);
    // The last of two members with one key is the one that counts.
    assert_eq!(json(r#"{"a":1,"a":2}"#).get("a"), Some(&Json::integer(2)));
}

#[test]
fn scalars_are_read_from_numbers_and_texts() {
    assert_eq!(scalar_string(&json("1.50")), Some("1.5".to_string()));
    assert_eq!(scalar_string(&json("18446744073709551615")), Some("18446744073709551615".to_string()));
    assert_eq!(scalar_string(&json("\"  \"")), None);
    assert_eq!(scalar_string(&json("\" x \"")), Some(" x ".to_string()));
    assert_eq!(scalar_string(&json("true")), None);
    assert_eq!(scalar_i64(&json("\" 42 \"")), Some(42));
    assert_eq!(scalar_i64(&json("1.0")), None);
    assert_eq!(scalar_i64(&json("18446744073709551615")), None);
    assert_eq!(scalar_i32(&json("2147483648")), None);
    assert_eq!(scalar_i32(&json("\"-5\"")), Some(-5));
    assert_eq!(scalar_i32(&json("[5]")), None);
}

#[test]
fn timestamps_in_milliseconds_are_cut_to_seconds() {
    assert_eq!(parse_timestamp_seconds("1700000000"), Some(1_700_000_000));
    assert_eq!(parse_timestamp_seconds(" 1700000000999 "), Some(1_700_000_000));
    assert_eq!(parse_timestamp_seconds("-1700000000999"), Some(-1_700_000_000));
    assert_eq!(parse_timestamp_seconds("10000000000"), Some(10_000_000_000));
    assert_eq!(parse_timestamp_seconds("10000000001"), Some(10_000_000));
    assert_eq!(parse_timestamp_seconds("2024-01-01"), None);
    assert_eq!(timestamp_seconds(Some(" 5")), None);
    assert_eq!(timestamp_seconds(Some("1700000000999")), Some(1_700_000_000));
    assert_eq!(timestamp_seconds(Some("-9223372036854775808")), Some(i64::MIN));
    assert_eq!(timestamp_seconds(None), None);
}

#[test]
fn a_timestamp_has_passed_from_its_own_second_on() {
    assert!(timestamp_has_passed(Some("100"), 100));
    assert!(!timestamp_is_future(Some("100"), 100));
    assert!(timestamp_is_future(Some("100"), 99));
    assert!(!timestamp_has_passed(Some("100"), 99));
    assert!(!timestamp_has_passed(None, 100));
    assert!(!timestamp_is_future(Some("soon"), 100));
}

#[test]
fn times_at_an_offset_are_written_with_it() {
    assert_eq!(
        format_timestamp_at_offset(0, 0).as_deref(),
        Some("1970-01-01 00:00:00 +00:00")
    );
    assert_eq!(
        format_timestamp_at_offset(1_700_000_000, 19_800).as_deref(),
        Some("2023-11-15 03:43:20 +05:30")
    );
    assert_eq!(
        format_timestamp_at_offset(-1, -3_600).as_deref(),
        Some("1969-12-31 22:59:59 -01:00")
    );
}

#[test]
fn local_times_denote_their_second() {
    for seconds in [0_i64, 1_700_000_000, -86_400, 4_102_444_800] {
        let text = format_local_timestamp_with_offset(seconds).unwrap();
        let read = chrono::DateTime::parse_from_str(&text, LOCAL_TIME_FORMAT).unwrap();
        assert_eq!(read.timestamp(), seconds);
        assert_eq!(format_timestamp(Some(&seconds.to_string())), Some(text));
    }
    assert_eq!(format_timestamp(Some("later")), None);
    assert_eq!(format_timestamp(None), None);
}

#[test]
fn local_times_end_with_the_dates() {
    for offset in [0, 86_399, -86_399] {
        assert!(format_timestamp_at_offset(FIRST_DATED_SECOND, offset).is_some());
        assert!(format_timestamp_at_offset(FIRST_DATED_SECOND - 1, offset).is_none());
        assert!(format_timestamp_at_offset(LAST_DATED_SECOND, offset).is_some());
        assert!(format_timestamp_at_offset(LAST_DATED_SECOND + 1, offset).is_none());
    }
    assert!(format_local_timestamp_with_offset(FIRST_DATED_SECOND).is_some());
    assert!(format_local_timestamp_with_offset(FIRST_DATED_SECOND - 1).is_none());
    assert!(format_local_timestamp_with_offset(LAST_DATED_SECOND).is_some());
    assert!(format_local_timestamp_with_offset(LAST_DATED_SECOND + 1).is_none());
    assert!(format_local_timestamp_with_offset(i64::MAX).is_none());
    assert!(format_local_timestamp_with_offset(i64::MIN).is_none());
}

#[test]
fn time_texts_hold_digits_signs_colons_and_spaces() {
    for (seconds, offset) in [
        (FIRST_DATED_SECOND, -86_399),
        (LAST_DATED_SECOND, 86_399),
        (0, 45),
        (253_402_300_800, 0),
        (-62_167_219_201, 0),
    ] {
        let text = format_timestamp_at_offset(seconds, offset).unwrap();
        assert!(!text.is_empty());
        assert!(text.chars().all(|c| c.is_ascii_digit() || "-+: ".contains(c)), "{text}");
    }
}

#[test]
fn status_keys_read_back() {
    for code in -1..=9 {
        let status = Status::from_int(code);
        assert!(status.is_known());
        assert_eq!(Status::parse(status.as_str()), status);
    }
    assert_eq!(Status::from_int(12), Status::Other("unknown_12".to_string()));
    assert_eq!(Status::from_int(-2).as_str(), "unknown_-2");
    assert_eq!(Status::parse("future"), Status::Other("future".to_string()));
    assert!(!Status::parse("future").is_terminal());
    assert!(Status::AdminStopped.is_terminal());
    assert!(!Status::Disputed.is_terminal());
}
