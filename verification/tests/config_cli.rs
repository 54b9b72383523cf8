use work_life_buddy::cli::{apply_overrides, overrides_would_overflow, OverrideError};
use work_life_buddy::config::Config;
use work_life_buddy::duration::{HumanDuration, Span};
use work_life_buddy::numeral::IntErrorKind;

fn args(v: &[&str]) -> Vec<String> {
    v.iter().map(|s| s.to_string()).collect()
}

fn mins(m: u64) -> HumanDuration {
    HumanDuration(Span { secs: m * 60, nanos: 0 })
}

#[test]
fn default_config_matches_the_documented_defaults() {
    let c = Config::default();
    assert_eq!(c.off_hours_start, 18);
    assert_eq!(c.off_hours_end, 7);
    assert_eq!(c.logout_interval, mins(30));
    assert_eq!(c.warning_interval, None);
    assert_eq!(c.logout_command, "killall --signal HUP --user $USER cosmic-session");
    assert!(c.enforce);
}

#[test]
fn config_clone_keeps_every_setting() {
    let mut c = Config::default();
    c.logout_command = "loginctl terminate-user $USER".to_string();
    c.warning_interval = Some(mins(5));
    let d = c.clone();
    assert_eq!(d.logout_command, c.logout_command);
    assert_eq!(d.warning_interval, c.warning_interval);
    assert_eq!(d.off_hours_start, c.off_hours_start);
}

#[test]
fn no_arguments_change_nothing() {
    let mut c = Config::default();
    assert!(apply_overrides(&mut c, &[]).is_ok());
    assert_eq!(c.off_hours_start, 18);
    assert!(c.enforce);
}

#[test]
fn each_option_sets_its_setting() {
    let mut c = Config::default();
    let a = args(&[
        "--verbose", "--no-enforce", "--logout-interval", "30s", "--warning-interval", "10s",
        "--logout-command", "loginctl terminate-user $USER", "--off-hours-start", "9",
        "--off-hours-end", "17",
    ]);
    assert!(apply_overrides(&mut c, &a).is_ok());
    assert!(!c.enforce);
    assert_eq!(c.logout_interval, HumanDuration(Span { secs: 30, nanos: 0 }));
    assert_eq!(c.warning_interval, Some(HumanDuration(Span { secs: 10, nanos: 0 })));
    assert_eq!(c.logout_command, "loginctl terminate-user $USER");
    assert_eq!(c.off_hours_start, 9);
    assert_eq!(c.off_hours_end, 17);
}

#[test]
fn later_options_win() {
    let mut c = Config::default();
    assert!(apply_overrides(&mut c, &args(&["--no-enforce", "--enforce"])).is_ok());
    assert!(c.enforce);
    assert!(apply_overrides(&mut c, &args(&["--off-hours-end", "3", "--off-hours-end", "4"])).is_ok());
    assert_eq!(c.off_hours_end, 4);
}

#[test]
fn an_option_value_may_look_like_an_option() {
    let mut c = Config::default();
    assert!(apply_overrides(&mut c, &args(&["--logout-command", "--help"])).is_ok());
    assert_eq!(c.logout_command, "--help");
}

#[test]
fn unknown_option_is_an_error() {
    let mut c = Config::default();
    match apply_overrides(&mut c, &args(&["--no-enforce", "--bogus", "--off-hours-start", "1"])) {
        Err(e) => {
            assert!(matches!(&e, OverrideError::UnknownOption(o) if o == "--bogus"));
            assert_eq!(e.message(), "Unknown option: --bogus");
        }
        Ok(()) => panic!("accepted an unknown option"),
    }
    // The arguments before the error took effect; those after it did not.
    assert!(!c.enforce);
    assert_eq!(c.off_hours_start, 18);
}

#[test]
fn option_without_value_is_an_error() {
    let mut c = Config::default();
    let e = apply_overrides(&mut c, &args(&["--off-hours-end"])).unwrap_err();
    assert_eq!(e.message(), "--off-hours-end requires a value");
}

#[test]
fn bad_hour_is_an_error() {
    let mut c = Config::default();
    let e = apply_overrides(&mut c, &args(&["--off-hours-start", "nine"])).unwrap_err();
    assert!(matches!(e, OverrideError::InvalidHour(IntErrorKind::InvalidDigit)));
    assert_eq!(e.message(), "invalid digit found in string");
    let e = apply_overrides(&mut c, &args(&["--off-hours-start", "4294967296"])).unwrap_err();
    assert_eq!(e.message(), "number too large to fit in target type");
    let e = apply_overrides(&mut c, &args(&["--off-hours-end", ""])).unwrap_err();
    assert_eq!(e.message(), "cannot parse integer from empty string");
    assert!(apply_overrides(&mut c, &args(&["--off-hours-start", "4294967295"])).is_ok());
    assert_eq!(c.off_hours_start, u32::MAX);
}

#[test]
fn hours_are_not_trimmed() {
    let mut c = Config::default();
    let e = apply_overrides(&mut c, &args(&["--off-hours-start", " 9"])).unwrap_err();
    assert_eq!(e.message(), "invalid digit found in string");
}

#[test]
fn bad_duration_is_an_error() {
    let mut c = Config::default();
    let e = apply_overrides(&mut c, &args(&["--warning-interval", "5h"])).unwrap_err();
    assert_eq!(e.message(), "expected duration like \"30m\" or \"30s\", got \"5h\"");
    assert_eq!(c.warning_interval, None);
}

#[test]
fn overflowing_minutes_are_found_before_applying() {
    assert!(overrides_would_overflow(&args(&["--logout-interval", "307445734561825861m"])));
    assert!(!overrides_would_overflow(&args(&["--logout-command", "307445734561825861m"])));
    assert!(!overrides_would_overflow(&args(&["--bogus", "--logout-interval", "307445734561825861m"])));
    assert!(!overrides_would_overflow(&args(&["--logout-interval", "30m"])));
}
