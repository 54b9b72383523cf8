use chrono::{DateTime, Duration, Local, NaiveTime, TimeZone, Timelike};
use work_life_buddy::clock::{checked_later, span_between, Instant, LocalTime};
use work_life_buddy::config::Config;
use work_life_buddy::duration::{HumanDuration, Span};
use work_life_buddy::scheduler::{
    is_off_hours, next_opening_fits, time_until_off_hours, wait_until_opening, CycleAction, CycleEvent, CyclePhase,
    CycleResult, LogoutCycle,
};

fn at_hour(hour: u32) -> LocalTime {
    LocalTime { instant: Instant { secs: 1_700_000_000, nanos: 0 }, hour }
}

fn window(start: u32, end: u32) -> Config {
    let mut c = Config::default();
    c.off_hours_start = start;
    c.off_hours_end = end;
    c
}

#[test]
fn window_spanning_midnight() {
    let c = window(18, 7);
    for h in 0..24 {
        assert_eq!(is_off_hours(&c, &at_hour(h)), h >= 18 || h < 7, "hour {h}");
    }
}

#[test]
fn window_within_one_day() {
    let c = window(9, 17);
    for h in 0..24 {
        assert_eq!(is_off_hours(&c, &at_hour(h)), (9..17).contains(&h), "hour {h}");
    }
}

#[test]
fn empty_window_is_never_off_hours() {
    let c = window(8, 8);
    for h in 0..24 {
        assert!(!is_off_hours(&c, &at_hour(h)));
    }
}

fn local(now: &DateTime<Local>) -> LocalTime {
    LocalTime {
        instant: Instant { secs: now.timestamp(), nanos: now.timestamp_subsec_nanos() },
        hour: now.hour(),
    }
}

/// The wait computed with chrono directly.
fn chrono_wait(start_hour: u32, now: &DateTime<Local>) -> std::time::Duration {
    let start = NaiveTime::from_hms_opt(start_hour, 0, 0).unwrap();
    let today_start = now.date_naive().and_time(start).and_local_timezone(Local).unwrap();
    let target = if today_start > *now { today_start } else { today_start + Duration::days(1) };
    (target - *now).to_std().unwrap_or(std::time::Duration::from_secs(60))
}

#[test]
fn wait_until_off_hours_matches_the_clock() {
    for (secs, nanos) in [(1_704_110_400i64, 0u32), (1_704_110_400, 123_456_789), (1_719_000_000, 5), (1_700_000_000, 0)] {
        let now = Local.timestamp_opt(secs, nanos).unwrap();
        for start in [0u32, 7, 12, 18, 23] {
            let c = window(start, 7);
            let t = now
                .date_naive()
                .and_time(NaiveTime::from_hms_opt(start, 0, 0).unwrap())
                .and_local_timezone(Local)
                .unwrap();
            let opening = Instant { secs: t.timestamp(), nanos: t.timestamp_subsec_nanos() };
            assert!(next_opening_fits(&opening, &local(&now)));
            let got = time_until_off_hours(&c, &local(&now), opening);
            let want = chrono_wait(start, &now);
            assert_eq!((got.secs, got.nanos), (want.as_secs(), want.subsec_nanos()), "start {start} at {now}");
        }
    }
}

#[test]
fn opening_past_the_last_time_does_not_fit() {
    let c = window(18, 7);
    let now = LocalTime { instant: Instant { secs: 8_210_266_876_000, nanos: 0 }, hour: 20 };
    let opening = Instant { secs: 8_210_266_870_000, nanos: 0 };
    assert!(!next_opening_fits(&opening, &now));
    let ahead = Instant { secs: 8_210_266_876_100, nanos: 0 };
    assert!(next_opening_fits(&ahead, &now));
    assert_eq!(time_until_off_hours(&c, &now, ahead), Span::from_secs(100));
    let early = Instant { secs: 1_000, nanos: 0 };
    assert!(next_opening_fits(&early, &LocalTime { instant: Instant { secs: 2_000, nanos: 0 }, hour: 1 }));
}

#[test]
fn wait_until_opening_today_or_tomorrow() {
    let now = LocalTime { instant: Instant { secs: 1000, nanos: 500 }, hour: 3 };
    let later = Instant { secs: 4600, nanos: 0 };
    assert_eq!(wait_until_opening(&later, &now), Span { secs: 3599, nanos: 999_999_500 });
    let earlier = Instant { secs: 400, nanos: 0 };
    assert_eq!(wait_until_opening(&earlier, &now), Span { secs: 85799, nanos: 999_999_500 });
    let same = Instant { secs: 1000, nanos: 500 };
    assert_eq!(wait_until_opening(&same, &now), Span { secs: 86400, nanos: 0 });
}

#[test]
fn instant_arithmetic() {
    let a = Instant { secs: 10, nanos: 900_000_000 };
    let d = Span { secs: 1, nanos: 200_000_000 };
    assert_eq!(checked_later(&a, &d), Some(Instant { secs: 12, nanos: 100_000_000 }));
    let last = Instant { secs: 8_210_266_876_799, nanos: 0 };
    assert_eq!(checked_later(&last, &Span { secs: 1, nanos: 0 }), None);
    assert_eq!(span_between(&Instant { secs: 12, nanos: 100 }, &a), Some(Span { secs: 1, nanos: 100_000_100 }));
    assert_eq!(span_between(&a, &Instant { secs: 12, nanos: 100 }), None);
}

fn cycle_config(logout_secs: u64, warning_secs: Option<u64>) -> Config {
    let mut c = Config::default();
    c.logout_interval = HumanDuration(Span::from_secs(logout_secs));
    c.warning_interval = warning_secs.map(|s| HumanDuration(Span::from_secs(s)));
    c
}

fn clock(secs: i64) -> LocalTime {
    LocalTime { instant: Instant { secs, nanos: 0 }, hour: 20 }
}

#[test]
fn cycle_warns_ahead_of_logout_then_logs_out() {
    let c = cycle_config(1800, Some(300));
    let mut cycle = LogoutCycle::new(&c);
    match cycle.step(CycleEvent::Started(clock(1_000_000))) {
        CycleAction::Sleep(s) => assert_eq!(s, Span::from_secs(1500)),
        other => panic!("expected a sleep, got {other:?}"),
    }
    assert_eq!(cycle.phase, CyclePhase::AwaitingWarning);
    assert_eq!(cycle.logout_at, Instant { secs: 1_001_800, nanos: 0 });
    match cycle.step(CycleEvent::Woke) {
        CycleAction::ShowWarning { body, display_secs, urgent } => {
            assert_eq!(body, "You will be logged out in <b>5m</b>.\nSave your work!");
            assert_eq!(display_secs, 300);
            assert!(urgent);
        }
        other => panic!("expected the warning, got {other:?}"),
    }
    match cycle.step(CycleEvent::WarningShown(clock(1_001_502))) {
        CycleAction::Sleep(s) => assert_eq!(s, Span::from_secs(298)),
        other => panic!("expected a sleep, got {other:?}"),
    }
    assert!(matches!(cycle.step(CycleEvent::Woke), CycleAction::Finish(CycleResult::LogOut)));
    assert_eq!(cycle.phase, CyclePhase::Finished);
}

#[test]
fn cycle_without_warning_interval_warns_at_start() {
    let c = cycle_config(30, None);
    let mut cycle = LogoutCycle::new(&c);
    match cycle.step(CycleEvent::Started(clock(50))) {
        CycleAction::ShowWarning { body, display_secs, .. } => {
            assert_eq!(body, "You will be logged out in <b>30s</b>.\nSave your work!");
            assert_eq!(display_secs, 30);
        }
        other => panic!("expected the warning, got {other:?}"),
    }
    match cycle.step(CycleEvent::WarningShown(clock(51))) {
        CycleAction::Sleep(s) => assert_eq!(s, Span::from_secs(29)),
        other => panic!("expected a sleep, got {other:?}"),
    }
}

#[test]
fn warning_longer_than_cycle_warns_at_start() {
    let c = cycle_config(60, Some(600));
    let mut cycle = LogoutCycle::new(&c);
    match cycle.step(CycleEvent::Started(clock(0))) {
        CycleAction::ShowWarning { body, display_secs, .. } => {
            assert_eq!(body, "You will be logged out in <b>10m</b>.\nSave your work!");
            assert_eq!(display_secs, 300);
        }
        other => panic!("expected the warning, got {other:?}"),
    }
}

#[test]
fn short_warning_stays_ten_seconds() {
    let c = cycle_config(60, Some(3));
    let mut cycle = LogoutCycle::new(&c);
    assert!(matches!(cycle.step(CycleEvent::Started(clock(0))), CycleAction::Sleep(_)));
    match cycle.step(CycleEvent::Woke) {
        CycleAction::ShowWarning { display_secs, .. } => assert_eq!(display_secs, 10),
        other => panic!("expected the warning, got {other:?}"),
    }
}

#[test]
fn late_warning_logs_out_at_once() {
    let c = cycle_config(30, None);
    let mut cycle = LogoutCycle::new(&c);
    cycle.step(CycleEvent::Started(clock(0)));
    assert!(matches!(
        cycle.step(CycleEvent::WarningShown(clock(45))),
        CycleAction::Finish(CycleResult::LogOut)
    ));
}

#[test]
fn logout_interval_too_long_for_a_delta_counts_as_half_an_hour() {
    let c = cycle_config(u64::MAX, Some(u64::MAX));
    let cycle = LogoutCycle::new(&c);
    assert_eq!(cycle.logout_time(&clock(100)), Some(Instant { secs: 1900, nanos: 0 }));
}
