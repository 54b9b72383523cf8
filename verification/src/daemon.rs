//! The daemon's outer loop: watch for off hours, run logout cycles, and log
//! the user out once a cycle ends.

use vstd::prelude::*;
use crate::clock::LocalTime;
use crate::config::Config;
use crate::duration::Span;
use crate::notify::{info_notice, timeout_millis, Notice};
use crate::scheduler::{
    is_off_hours, off_hours_at, opening_fits, time_until_off_hours, wait_total, CycleResult,
};
use crate::clock::Instant;

verus! {

/// What to do on a reading of the clock.
#[derive(Debug)]
pub enum Watch {
    /// Off hours: run a logout cycle.
    RunCycle,
    /// Outside off hours: sleep this long, until they open.
    SleepUntilOffHours(Span),
}

/// Decides, on a reading `now` of the local clock, whether to run a logout
/// cycle or to sleep until off hours open; `opening_today` is the instant at
/// which the local clock shows `off_hours_start`:00:00 on the date of `now`
/// (needed only outside off hours).
pub fn watch(config: &Config, now: &LocalTime, opening_today: Option<Instant>) -> (w: Watch)
    requires
        now.wf(),
        !off_hours_at(config@, now.hour) ==> {
            &&& config.off_hours_start < 24
            &&& opening_today matches Some(t) && t.wf() && opening_fits(t, now.instant)
        },
    ensures
        if off_hours_at(config@, now.hour) {
            w is RunCycle
        } else {
            &&& opening_today matches Some(t)
            &&& w matches Watch::SleepUntilOffHours(s) && s.wf() && s.total() == wait_total(t, now.instant)
        },
{
    if is_off_hours(config, now) {
        Watch::RunCycle
    } else {
        match opening_today {
            Some(t) => Watch::SleepUntilOffHours(time_until_off_hours(config, now, t)),
            None => {
                proof {
                    assert(false);
                }
                Watch::RunCycle
            },
        }
    }
}

/// A step of what follows a logout cycle.
#[derive(Debug)]
pub enum Farewell {
    /// Show this notification.
    Notify(Notice),
    /// Sleep this long.
    Pause(Span),
    /// Run the logout command of the settings.
    RunLogoutCommand,
}

pub open spec fn farewell_text() -> Seq<char> {
    "Logging you out. Rest well! \u{1f319}"@
}

/// Whether `f` is the pause of `secs` seconds.
pub open spec fn is_pause(f: Farewell, secs: u64) -> bool {
    f matches Farewell::Pause(s) && s.secs == secs && s.nanos == 0
}

/// What follows a cycle that ended in `result`: a farewell notification, a
/// short pause for it to appear, and then, only where the settings enforce
/// logout, the logout command and time for the session to end.
pub fn after_cycle(config: &Config, result: CycleResult) -> (steps: Vec<Farewell>)
    ensures
        steps.len() == if config.enforce { 4nat } else { 2nat },
        steps[0] matches Farewell::Notify(n) && n.summary@ == "Work-Life Buddy"@
            && n.body@ == farewell_text() && n.timeout_ms == timeout_millis(5) && n.urgency is None,
        is_pause(steps[1], 3),
        config.enforce ==> steps[2] is RunLogoutCommand && is_pause(steps[3], 15),
        forall|i: int| 0 <= i < steps.len() && (#[trigger] steps[i]) is RunLogoutCommand ==> config.enforce,
{
    let mut steps: Vec<Farewell> = Vec::new();
    match result {
        CycleResult::LogOut => {
            steps.push(Farewell::Notify(info_notice("Work-Life Buddy", "Logging you out. Rest well! \u{1f319}", 5)));
            steps.push(Farewell::Pause(Span::from_secs(3)));
            if config.enforce {
                steps.push(Farewell::RunLogoutCommand);
                steps.push(Farewell::Pause(Span::from_secs(15)));
            }
        },
    }
    steps
}

} // verus!
