//! When the daemon acts: whether a time falls in off hours, how long to wait
//! for them, and the steps of one logout cycle.

use vstd::prelude::*;
use crate::clock::{
    checked_later, delta_or_half_hour, latest_total, span_between,
    Instant, LocalTime,
};
use crate::config::{Config, ConfigModel};
use crate::duration::{
    display_text, lemma_display_reads_back, nanos_per_sec, parse_duration, DurationError, HumanDuration, Span,
};

verus! {

/// Whether the hour `h` falls in the off-hours window of `c`. A window whose
/// start is after its end spans midnight.
pub open spec fn off_hours_at(c: ConfigModel, h: u32) -> bool {
    if c.off_hours_start > c.off_hours_end {
        h >= c.off_hours_start || h < c.off_hours_end
    } else {
        h >= c.off_hours_start && h < c.off_hours_end
    }
}

/// Returns true when `now` falls within the configured off-hours window.
/// Supports windows that span midnight (e.g. 18:00–07:00) as well as same-day
/// windows (e.g. 09:00–17:00).
pub fn is_off_hours(config: &Config, now: &LocalTime) -> (b: bool)
    ensures
        b == off_hours_at(config@, now.hour),
        config.off_hours_start <= config.off_hours_end
            ==> (b == (config.off_hours_start <= now.hour && now.hour < config.off_hours_end)),
        config.off_hours_start > config.off_hours_end
            ==> (b == (now.hour >= config.off_hours_start || now.hour < config.off_hours_end)),
{
    let h = now.hour;
    if config.off_hours_start > config.off_hours_end {
        h >= config.off_hours_start || h < config.off_hours_end
    } else {
        h >= config.off_hours_start && h < config.off_hours_end
    }
}

pub open spec fn day_total() -> int {
    86400 * nanos_per_sec()
}

/// The next time off hours open, given the instant `start` at which they open
/// on today's date: that instant if it is still ahead, else a day after it.
pub open spec fn next_opening(start: Instant, now: Instant) -> int {
    if start.total() > now.total() { start.total() } else { start.total() + day_total() }
}

/// The wait from `now` until the next opening, or a minute where the
/// opening is not ahead of `now`.
pub open spec fn wait_total(start: Instant, now: Instant) -> int {
    if next_opening(start, now) >= now.total() {
        next_opening(start, now) - now.total()
    } else {
        60 * nanos_per_sec()
    }
}

/// Whether the next opening is a time that can be held, where it lies a day
/// after today's.
pub open spec fn opening_fits(start: Instant, now: Instant) -> bool {
    start.total() <= now.total() ==> start.total() + day_total() <= latest_total()
}

/// How long from `now` until off hours open, where `start` is the instant at
/// which they open on today's local date.
pub fn wait_until_opening(start: &Instant, now: &LocalTime) -> (r: Span)
    requires
        start.wf(),
        now.wf(),
        opening_fits(*start, now.instant),
    ensures
        r.wf(),
        r.total() == wait_total(*start, now.instant),
{
    let target = if start.total_gt(&now.instant) {
        *start
    } else {
        match checked_later(start, &Span::from_secs(86400)) {
            Some(t) => t,
            None => {
                proof {
                    assert(false);
                }
                *start
            },
        }
    };
    match span_between(&target, &now.instant) {
        Some(s) => s,
        None => Span::from_secs(60),
    }
}

/// Whether the next opening after `now`, given today's opening `start`, is a
/// time that can be held.
pub fn next_opening_fits(start: &Instant, now: &LocalTime) -> (b: bool)
    requires
        start.wf(),
        now.wf(),
    ensures
        b == opening_fits(*start, now.instant),
{
    if start.total_gt(&now.instant) {
        true
    } else {
        checked_later(start, &Span::from_secs(86400)).is_some()
    }
}

/// Returns how long until the next off-hours window opens, given
/// `opening_today`: the instant at which the local clock shows
/// `off_hours_start`:00:00 on the date of `now`.
pub fn time_until_off_hours(config: &Config, now: &LocalTime, opening_today: Instant) -> (r: Span)
    requires
        now.wf(),
        config.off_hours_start < 24,
        opening_today.wf(),
        opening_fits(opening_today, now.instant),
    ensures
        r.wf(),
        r.total() == wait_total(opening_today, now.instant),
{
    wait_until_opening(&opening_today, now)
}

/// How a logout cycle ends.
#[derive(Clone, Copy, Debug, PartialEq, Eq, Structural)]
pub enum CycleResult {
    /// Proceed to log the user out.
    LogOut,
}

/// Where a logout cycle stands.
#[derive(Clone, Copy, Debug, PartialEq, Eq, Structural)]
pub enum CyclePhase {
    /// Not started.
    Idle,
    /// Sleeping until the warning is due.
    AwaitingWarning,
    /// The warning is being shown.
    Warning,
    /// Sleeping until logout is due.
    AwaitingLogout,
    /// Over: log out.
    Finished,
}

impl CyclePhase {
    /// How far the cycle has got: each step moves it further.
    pub open spec fn rank(self) -> nat {
        match self {
            CyclePhase::Idle => 0,
            CyclePhase::AwaitingWarning => 1,
            CyclePhase::Warning => 2,
            CyclePhase::AwaitingLogout => 3,
            CyclePhase::Finished => 4,
        }
    }
}

/// What the driver of a cycle reports back.
#[derive(Clone, Copy, Debug)]
pub enum CycleEvent {
    /// The cycle begins; the local clock reads this.
    Started(LocalTime),
    /// A requested sleep is over.
    Woke,
    /// The warning has been shown; the local clock now reads this.
    WarningShown(LocalTime),
}

/// What the driver of a cycle is to do next.
#[derive(Debug)]
pub enum CycleAction {
    Sleep(Span),
    ShowWarning { body: String, display_secs: u32, urgent: bool },
    Finish(CycleResult),
}

/// Which events a phase takes.
pub open spec fn accepts(p: CyclePhase, e: CycleEvent) -> bool {
    match (p, e) {
        (CyclePhase::Idle, CycleEvent::Started(_)) => true,
        (CyclePhase::AwaitingWarning, CycleEvent::Woke) => true,
        (CyclePhase::Warning, CycleEvent::WarningShown(_)) => true,
        (CyclePhase::AwaitingLogout, CycleEvent::Woke) => true,
        _ => false,
    }
}

/// How long before logout the warning shows: the warning interval, or the
/// whole cycle where none is set.
pub open spec fn warning_lead(c: ConfigModel) -> Span {
    match c.warning_interval {
        Some(w) => w.0,
        None => c.logout_interval.0,
    }
}

/// The spans of the settings are well formed.
pub open spec fn spans_wf(c: ConfigModel) -> bool {
    &&& c.logout_interval.0.wf()
    &&& match c.warning_interval {
        Some(w) => w.0.wf(),
        None => true,
    }
}

/// `a - b`, or zero where `b` is longer.
pub open spec fn less_or_zero(a: Span, b: Span) -> int {
    if a.total() >= b.total() { a.total() - b.total() } else { 0 }
}

/// The text of the warning for a lead of `secs` seconds.
pub open spec fn warning_body(secs: nat) -> Seq<char> {
    "You will be logged out in <b>"@ + display_text(secs) + "</b>.\nSave your work!"@
}

/// How many seconds the warning stays on screen: its lead, kept within 10 to 300.
pub open spec fn display_seconds(lead: Span) -> u32 {
    if lead.secs < 10 { 10 } else if lead.secs > 300 { 300 } else { lead.secs as u32 }
}

/// The action that shows the warning for a lead of `lead`.
pub open spec fn is_warning_for(a: CycleAction, lead: Span) -> bool {
    match a {
        CycleAction::ShowWarning { body, display_secs, urgent } =>
            body@ == warning_body(lead.secs as nat) && display_secs == display_seconds(lead) && urgent,
        _ => false,
    }
}

/// One logout cycle: a warning, then logout once the logout interval has
/// passed since the cycle began.
#[derive(Clone, Copy, Debug)]
pub struct LogoutCycle {
    pub phase: CyclePhase,
    /// The whole cycle: from its start to logout.
    pub logout_interval: Span,
    /// How long before logout the warning shows.
    pub warning_before: Span,
    /// When logout is due (meaningful once the cycle has started).
    pub logout_at: Instant,
}

impl LogoutCycle {
    pub open spec fn wf(self) -> bool {
        &&& self.logout_interval.wf()
        &&& self.warning_before.wf()
        &&& self.logout_at.wf()
        &&& self.logout_at.total() <= latest_total()
    }

    /// How long after the start of the cycle the warning shows.
    pub open spec fn warning_delay(self) -> int {
        less_or_zero(self.logout_interval, self.warning_before)
    }

    /// The time at which a cycle started at `now` logs out can be held.
    pub open spec fn start_fits(self, now: LocalTime) -> bool {
        now.instant.total() + delta_or_half_hour(self.logout_interval).total() <= latest_total()
    }

    /// A cycle for the settings `config`, not yet started.
    pub fn new(config: &Config) -> (c: LogoutCycle)
        requires
            spans_wf(config@),
        ensures
            c.wf(),
            c.phase == CyclePhase::Idle,
            c.logout_interval == config.logout_interval.0,
            c.warning_before == warning_lead(config@),
            config.warning_interval is None ==> c.warning_before == config.logout_interval.0,
            config.warning_interval matches Some(w) ==> c.warning_before == w.0,
    {
        let logout = config.logout_interval.0;
        let before = match &config.warning_interval {
            Some(w) => w.0,
            None => logout,
        };
        LogoutCycle {
            phase: CyclePhase::Idle,
            logout_interval: logout,
            warning_before: before,
            logout_at: Instant { secs: 0, nanos: 0 },
        }
    }

    fn warning(&self) -> (a: CycleAction)
        requires
            self.wf(),
        ensures
            is_warning_for(a, self.warning_before),
    {
        let secs = self.warning_before.as_secs();
        let display: u32 = if secs < 10 { 10 } else if secs > 300 { 300 } else { secs as u32 };
        let mut body = "You will be logged out in <b>".to_owned();
        let lead = HumanDuration(self.warning_before).to_string();
        body.append(lead.as_str());
        body.append("</b>.\nSave your work!");
        CycleAction::ShowWarning { body, display_secs: display, urgent: true }
    }

    /// When logout falls due for a cycle started at `now`, or `None` where
    /// that is past the last time that can be held.
    pub fn logout_time(&self, now: &LocalTime) -> (r: Option<Instant>)
        requires
            self.wf(),
            now.wf(),
        ensures
            match r {
                Some(t) => self.start_fits(*now) && t.wf()
                    && t.total() == now.instant.total() + delta_or_half_hour(self.logout_interval).total()
                    && (self.logout_interval.secs < 9_223_372_036_854_775
                        ==> t.total() == now.instant.total() + self.logout_interval.total()),
                None => !self.start_fits(*now),
            },
    {
        let i = self.logout_interval;
        let delta = if i.secs < 9_223_372_036_854_775 || (i.secs == 9_223_372_036_854_775 && i.nanos <= 807_000_000) {
            i
        } else {
            Span::from_secs(30 * 60)
        };
        checked_later(&now.instant, &delta)
    }

    /// Takes the next event of the cycle and says what to do.
    pub fn step(&mut self, event: CycleEvent) -> (a: CycleAction)
        requires
            old(self).wf(),
            accepts(old(self).phase, event),
            match event {
                CycleEvent::Started(now) => now.wf() && old(self).start_fits(now),
                CycleEvent::WarningShown(now) => now.wf(),
                CycleEvent::Woke => true,
            },
        ensures
            final(self).wf(),
            final(self).logout_interval == old(self).logout_interval,
            final(self).warning_before == old(self).warning_before,
            final(self).phase.rank() > old(self).phase.rank(),
            (a is Finish) == (final(self).phase == CyclePhase::Finished),
            a is Finish ==> a == CycleAction::Finish(CycleResult::LogOut),
            old(self).phase != CyclePhase::Idle ==> final(self).logout_at == old(self).logout_at,
            match event {
                CycleEvent::Started(now) => {
                    &&& final(self).logout_at.total() == now.instant.total()
                        + delta_or_half_hour(old(self).logout_interval).total()
                    &&& old(self).logout_interval.secs < 9_223_372_036_854_775
                        ==> final(self).logout_at.total() == now.instant.total() + old(self).logout_interval.total()
                    &&& if old(self).warning_delay() != 0 {
                        &&& final(self).phase == CyclePhase::AwaitingWarning
                        &&& a matches CycleAction::Sleep(d) && d.wf() && d.total() == old(self).warning_delay()
                    } else {
                        &&& final(self).phase == CyclePhase::Warning
                        &&& is_warning_for(a, old(self).warning_before)
                    }
                },
                CycleEvent::WarningShown(now) => {
                    if now.instant.total() < old(self).logout_at.total() {
                        &&& final(self).phase == CyclePhase::AwaitingLogout
                        &&& a matches CycleAction::Sleep(d) && d.wf()
                            && now.instant.total() + d.total() == old(self).logout_at.total()
                    } else {
                        final(self).phase == CyclePhase::Finished
                    }
                },
                CycleEvent::Woke => {
                    if old(self).phase == CyclePhase::AwaitingWarning {
                        &&& final(self).phase == CyclePhase::Warning
                        &&& is_warning_for(a, old(self).warning_before)
                    } else {
                        final(self).phase == CyclePhase::Finished
                    }
                },
            },
    {
        match event {
            CycleEvent::Started(now) => {
                let at = match self.logout_time(&now) {
                    Some(t) => t,
                    None => {
                        proof {
                            assert(false);
                        }
                        now.instant
                    },
                };
                self.logout_at = at;
                let delay = self.logout_interval.saturating_sub(&self.warning_before);
                if !delay.is_zero() {
                    self.phase = CyclePhase::AwaitingWarning;
                    CycleAction::Sleep(delay)
                } else {
                    self.phase = CyclePhase::Warning;
                    self.warning()
                }
            },
            CycleEvent::Woke => {
                if self.phase == CyclePhase::AwaitingWarning {
                    self.phase = CyclePhase::Warning;
                    self.warning()
                } else {
                    self.phase = CyclePhase::Finished;
                    CycleAction::Finish(CycleResult::LogOut)
                }
            },
            CycleEvent::WarningShown(now) => {
                let remaining = match span_between(&self.logout_at, &now.instant) {
                    Some(s) => s,
                    None => Span::zero(),
                };
                if !remaining.is_zero() {
                    self.phase = CyclePhase::AwaitingLogout;
                    CycleAction::Sleep(remaining)
                } else {
                    self.phase = CyclePhase::Finished;
                    CycleAction::Finish(CycleResult::LogOut)
                }
            },
        }
    }
}


/// A window whose start hour equals its end hour holds no hour: off hours
/// never come.
pub proof fn lemma_empty_window(c: ConfigModel, h: u32)
    requires
        c.off_hours_start == c.off_hours_end,
    ensures
        !off_hours_at(c, h),
{
}

/// A window that spans midnight holds exactly the hours that the window of
/// the same bounds within one day does not.
pub proof fn lemma_window_complement(c: ConfigModel, h: u32)
    requires
        c.off_hours_start > c.off_hours_end,
    ensures
        off_hours_at(c, h) == !off_hours_at(
            ConfigModel { off_hours_start: c.off_hours_end, off_hours_end: c.off_hours_start, ..c },
            h,
        ),
{
}

/// Waiting from `now` for the computed span ends exactly when off hours
/// open; where `start` is the opening on `now`'s own date (less than a day
/// before `now` and at most a day after it), the wait is never longer than a day.
pub proof fn lemma_wait_reaches_opening(start: Instant, now: Instant)
    requires
        now.total() - day_total() < start.total() <= now.total() + day_total(),
    ensures
        0 <= wait_total(start, now) <= day_total(),
        now.total() + wait_total(start, now) == next_opening(start, now),
{
}

/// The warning shows the warning interval ahead of logout; where the warning
/// interval is the whole cycle or longer (or not set), it shows as the cycle
/// begins.
pub proof fn lemma_warning_lead(c: LogoutCycle)
    requires
        c.wf(),
    ensures
        c.warning_before.total() <= c.logout_interval.total()
            ==> c.warning_delay() + c.warning_before.total() == c.logout_interval.total(),
        c.warning_before.total() >= c.logout_interval.total() ==> c.warning_delay() == 0,
{
}

/// A cycle takes at most four events: every step moves its phase further,
/// no phase is further than `Finished`, and `Finished` takes no event.
pub proof fn lemma_cycle_ends(p: CyclePhase, e: CycleEvent)
    ensures
        p.rank() <= 4,
        p.rank() == 4 <==> p == CyclePhase::Finished,
        !accepts(CyclePhase::Finished, e),
{
}


/// Within one day, an hour `h` is off hours, for a window that starts before
/// (or when) it ends, exactly when `start <= h < end`; for a window that
/// spans midnight, exactly when `h >= start` or `h < end`. Midnight (hour 0)
/// is in a window that starts at 0.
pub proof fn lemma_off_hours_window(c: ConfigModel, h: u32)
    requires
        h < 24,
    ensures
        c.off_hours_start <= c.off_hours_end
            ==> (off_hours_at(c, h) <==> (c.off_hours_start <= h && h < c.off_hours_end)),
        c.off_hours_start > c.off_hours_end
            ==> (off_hours_at(c, h) <==> (h >= c.off_hours_start || h < c.off_hours_end)),
        c.off_hours_start == 0 && c.off_hours_end > 0 ==> off_hours_at(c, 0),
{
}

/// A logout interval that fits a signed time delta (any ordinary interval)
/// is used as it is: logout falls due exactly that long after the cycle
/// starts. Only an interval too long for a delta is replaced by half an hour.
pub proof fn lemma_logout_after_interval(d: Span, now: Instant)
    ensures
        d.secs < 9_223_372_036_854_775 ==> delta_or_half_hour(d) == d,
        d.secs < 9_223_372_036_854_775
            ==> now.total() + delta_or_half_hour(d).total() == now.total() + d.secs * 1_000_000_000 + d.nanos,
        d.secs > 9_223_372_036_854_775 ==> delta_or_half_hour(d).secs == 1800 && delta_or_half_hour(d).nanos == 0,
{
}

/// Where no warning interval is set, the warning's lead is the whole logout
/// interval, so the warning shows as the cycle starts; where one is set, it
/// is the lead.
pub proof fn lemma_unset_warning_at_start(c: ConfigModel, cycle: LogoutCycle)
    requires
        cycle.logout_interval == c.logout_interval.0,
        cycle.warning_before == warning_lead(c),
        cycle.wf(),
    ensures
        c.warning_interval is None ==> cycle.warning_before == c.logout_interval.0 && cycle.warning_delay() == 0,
        c.warning_interval matches Some(w) ==> cycle.warning_before == w.0,
{
}

/// The warning names its lead exactly: its text is the fixed opening, then a
/// duration text that reads back as the lead's seconds, then the fixed close.
pub proof fn lemma_warning_names_lead(secs: u64)
    ensures
        warning_body(secs as nat) == "You will be logged out in <b>"@ + display_text(secs as nat) + "</b>.\nSave your work!"@,
        parse_duration(display_text(secs as nat)) == Ok::<nat, DurationError>(secs as nat),
{
    lemma_display_reads_back(secs);
}

} // verus!
