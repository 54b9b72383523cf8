use work_life_buddy::duration::{duration_setting_overflows, HumanDuration, Span};

fn secs_of(s: &str) -> Result<u64, String> {
    HumanDuration::from_str(s).map(|d| d.0.secs)
}

#[test]
fn minutes_and_seconds_read() {
    assert_eq!(secs_of("30m"), Ok(1800));
    assert_eq!(secs_of("30s"), Ok(30));
    assert_eq!(secs_of("5m"), Ok(300));
    assert_eq!(secs_of("0s"), Ok(0));
    assert_eq!(secs_of("+7s"), Ok(7));
}

#[test]
fn whitespace_around_the_number_is_ignored() {
    assert_eq!(secs_of(" 5 m"), Ok(300));
    assert_eq!(secs_of("\t10s"), Ok(10));
    assert_eq!(secs_of("10 \u{3000}s"), Ok(10));
}

#[test]
fn parsed_durations_have_no_subseconds() {
    let d = HumanDuration::from_str("45s").unwrap();
    assert_eq!(d.0, Span { secs: 45, nanos: 0 });
}

#[test]
fn missing_unit_is_reported_with_the_quoted_text() {
    assert_eq!(
        HumanDuration::from_str("30"),
        Err("expected duration like \"30m\" or \"30s\", got \"30\"".to_string())
    );
    assert_eq!(
        HumanDuration::from_str(""),
        Err("expected duration like \"30m\" or \"30s\", got \"\"".to_string())
    );
    assert_eq!(
        HumanDuration::from_str("a\"b"),
        Err("expected duration like \"30m\" or \"30s\", got \"a\\\"b\"".to_string())
    );
}

#[test]
fn bad_numbers_are_reported_as_integer_errors() {
    assert_eq!(secs_of("m"), Err("cannot parse integer from empty string".to_string()));
    assert_eq!(secs_of("xm"), Err("invalid digit found in string".to_string()));
    assert_eq!(secs_of("-5s"), Err("invalid digit found in string".to_string()));
    assert_eq!(secs_of("+s"), Err("invalid digit found in string".to_string()));
    assert_eq!(secs_of("1.5m"), Err("invalid digit found in string".to_string()));
    assert_eq!(
        secs_of("18446744073709551616s"),
        Err("number too large to fit in target type".to_string())
    );
    assert_eq!(secs_of("18446744073709551615s"), Ok(u64::MAX));
}

#[test]
fn integer_errors_match_std_parse() {
    for n in ["", "+", "-", "12a", "99999999999999999999", "a9999999999999999999", "99999999999999999999a", "+12", " 1", "٣", "007"] {
        let ours = HumanDuration::from_str(&format!("{n}s")).map(|d| d.0.secs);
        let std = n.trim().parse::<u64>().map_err(|e| e.to_string());
        assert_eq!(ours, std, "for {n:?}");
    }
}

#[test]
fn minute_counts_that_overflow_are_detected() {
    assert!(duration_setting_overflows("307445734561825861m"));
    assert!(!duration_setting_overflows("307445734561825860m"));
    assert!(!duration_setting_overflows("99999999999999999999s"));
    assert!(!duration_setting_overflows("abc"));
}

#[test]
fn durations_print_in_minutes_or_seconds() {
    assert_eq!(HumanDuration(Span { secs: 1800, nanos: 0 }).to_string(), "30m");
    assert_eq!(HumanDuration(Span { secs: 90, nanos: 0 }).to_string(), "90s");
    assert_eq!(HumanDuration(Span { secs: 0, nanos: 0 }).to_string(), "0m");
    assert_eq!(HumanDuration(Span { secs: 61, nanos: 500 }).to_string(), "61s");
    assert_eq!(HumanDuration(Span { secs: u64::MAX, nanos: 0 }).to_string(), "18446744073709551615s");
}

#[test]
fn printed_durations_read_back() {
    for secs in [0u64, 1, 59, 60, 61, 300, 1800, 3599, 3600, 86400, u64::MAX - 15, u64::MAX] {
        let d = HumanDuration(Span { secs, nanos: 0 });
        assert_eq!(HumanDuration::from_str(&d.to_string()), Ok(d));
    }
}

#[test]
fn default_duration_is_thirty_minutes() {
    assert_eq!(HumanDuration::default().0, Span { secs: 1800, nanos: 0 });
}

#[test]
fn span_arithmetic() {
    let a = Span { secs: 10, nanos: 200 };
    let b = Span { secs: 3, nanos: 500 };
    assert_eq!(a.saturating_sub(&b), Span { secs: 6, nanos: 999_999_700 });
    assert_eq!(b.saturating_sub(&a), Span { secs: 0, nanos: 0 });
    assert!(Span::zero().is_zero());
    assert!(!Span::from_secs(1).is_zero());
    assert_eq!(Span::from_secs(7).as_secs(), 7);
}
