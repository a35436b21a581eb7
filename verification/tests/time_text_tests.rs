use polymarket_rn1_bot::text::{concat_text, i64_to_text, join, split_on, str_eq, to_lowercase, usize_to_text};
use polymarket_rn1_bot::time::{now, parse_rfc3339, whole_minutes_between, Timestamp};

#[test]
fn parse_rfc3339_utc_and_offset() {
    let t = parse_rfc3339("2024-01-01T00:00:00Z").unwrap();
    assert_eq!(t.secs, 1_704_067_200);
    assert_eq!(t.nanos, 0);
    let u = parse_rfc3339("2024-01-01T02:00:00.5+02:00").unwrap();
    assert_eq!(u.secs, 1_704_067_200);
    assert_eq!(u.nanos, 500_000_000);
    assert!(parse_rfc3339("not a date").is_none());
}

#[test]
fn whole_minutes_round_toward_zero() {
    let start = Timestamp { secs: 1_000_000, nanos: 0 };
    let later = Timestamp { secs: 1_000_090, nanos: 0 };
    assert_eq!(whole_minutes_between(&later, &start), Some(1));
    assert_eq!(whole_minutes_between(&start, &later), Some(-1));
    let almost = Timestamp { secs: 1_000_059, nanos: 999_999_999 };
    assert_eq!(whole_minutes_between(&almost, &start), Some(0));
    let hour = Timestamp { secs: 1_003_600, nanos: 0 };
    assert_eq!(whole_minutes_between(&hour, &start), Some(60));
    let far = Timestamp { secs: i64::MAX, nanos: 0 };
    assert_eq!(whole_minutes_between(&far, &start), None);
}

#[test]
fn instants_order_by_seconds_then_nanos() {
    let a = Timestamp { secs: 10, nanos: 5 };
    let b = Timestamp { secs: 10, nanos: 6 };
    let c = Timestamp { secs: 9, nanos: 999_999_999 };
    assert!(a.at_or_before_exec(&b));
    assert!(!b.at_or_before_exec(&a));
    assert!(c.at_or_before_exec(&a));
    assert!(a.at_or_before_exec(&a));
    assert_eq!(Timestamp::from_secs(7), Timestamp { secs: 7, nanos: 0 });
}

#[test]
fn now_is_after_the_epoch() {
    let t = now();
    assert!(t.secs > 1_600_000_000);
    assert!(t.nanos < 1_000_000_000);
}

#[test]
fn split_on_keeps_empty_pieces() {
    assert_eq!(split_on("a-b--c", '-'), vec!["a", "b", "", "c"]);
    assert_eq!(split_on("", '-'), vec![""]);
    assert_eq!(split_on("-", '-'), vec!["", ""]);
    assert_eq!(split_on("lakers", '-'), vec!["lakers"]);
    assert_eq!(split_on("é-ü", '-'), vec!["é", "ü"]);
}

#[test]
fn str_eq_compares_text() {
    assert!(str_eq("YES", "YES"));
    assert!(!str_eq("YES", "yes"));
    assert!(!str_eq("YES", "YE"));
    assert!(str_eq("", ""));
}

#[test]
fn join_with_separator() {
    let row = vec!["a".to_string(), "b".to_string(), "c".to_string()];
    assert_eq!(join(&row, ","), "a,b,c");
    assert_eq!(join(&Vec::new(), ","), "");
    assert_eq!(join(&vec!["only".to_string()], ","), "only");
}

#[test]
fn number_text_and_case() {
    assert_eq!(i64_to_text(-42), "-42");
    assert_eq!(i64_to_text(0), "0");
    assert_eq!(i64_to_text(1_700_000_000), "1700000000");
    assert_eq!(usize_to_text(100), "100");
    assert_eq!(to_lowercase("LAKERS-Celtics"), "lakers-celtics");
    assert_eq!(concat_text("ab", "cd"), "abcd");
}

#[test]
fn number_text_extremes() {
    assert_eq!(i64_to_text(i64::MIN), "-9223372036854775808");
    assert_eq!(i64_to_text(i64::MAX), "9223372036854775807");
    assert_eq!(i64_to_text(-7), "-7");
    assert_eq!(usize_to_text(0), "0");
    assert_eq!(usize_to_text(9), "9");
    assert_eq!(usize_to_text(10), "10");
}
