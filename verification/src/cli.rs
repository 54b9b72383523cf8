//! Command-line overrides of the settings.

use vstd::prelude::*;
use crate::config::{Config, ConfigModel};
use crate::duration::{
    duration_error_text, duration_overflows, duration_setting_overflows, parse_duration,
    DurationError, HumanDuration, Span,
};
use crate::numeral::{parse_unsigned, parse_unsigned_in, IntErrorKind};
use crate::text::{chars_of, str_equals};

verus! {

/// Why the command line could not be applied.
#[derive(Debug)]
pub enum OverrideError {
    /// An option that takes a value came last.
    MissingValue(String),
    /// The value of a duration option could not be read; holds its message.
    InvalidDuration(String),
    /// The value of an hour option is no `u32`.
    InvalidHour(IntErrorKind),
    /// An argument that is no known option.
    UnknownOption(String),
}

pub enum OverrideErrorModel {
    MissingValue(Seq<char>),
    InvalidDuration(Seq<char>),
    InvalidHour(IntErrorKind),
    UnknownOption(Seq<char>),
}

impl View for OverrideError {
    type V = OverrideErrorModel;

    open spec fn view(&self) -> OverrideErrorModel {
        match self {
            OverrideError::MissingValue(f) => OverrideErrorModel::MissingValue(f@),
            OverrideError::InvalidDuration(m) => OverrideErrorModel::InvalidDuration(m@),
            OverrideError::InvalidHour(k) => OverrideErrorModel::InvalidHour(*k),
            OverrideError::UnknownOption(o) => OverrideErrorModel::UnknownOption(o@),
        }
    }
}

impl OverrideErrorModel {
    /// The message the error is reported with.
    pub open spec fn text(self) -> Seq<char> {
        match self {
            OverrideErrorModel::MissingValue(f) => f + " requires a value"@,
            OverrideErrorModel::InvalidDuration(m) => m,
            OverrideErrorModel::InvalidHour(k) => k.text(),
            OverrideErrorModel::UnknownOption(o) => "Unknown option: "@ + o,
        }
    }
}

impl OverrideError {
    pub fn message(&self) -> (s: String)
        ensures
            s@ == self@.text(),
    {
        match self {
            OverrideError::MissingValue(f) => {
                let mut s = f.clone();
                s.append(" requires a value");
                s
            },
            OverrideError::InvalidDuration(m) => m.clone(),
            OverrideError::InvalidHour(k) => k.message(),
            OverrideError::UnknownOption(o) => {
                let mut s = "Unknown option: ".to_owned();
                s.append(o.as_str());
                s
            },
        }
    }
}

/// Options that take the next argument as their value.
pub open spec fn takes_value(a: Seq<char>) -> bool {
    ||| a == "--warning-interval"@
    ||| a == "--logout-interval"@
    ||| a == "--logout-command"@
    ||| a == "--off-hours-start"@
    ||| a == "--off-hours-end"@
}

/// What setting one option to a value gives.
pub enum SetOutcome {
    Changed(ConfigModel),
    Rejected(OverrideErrorModel),
    /// A minute count whose seconds overflow a `u64`.
    Overflow,
}

pub open spec fn set_duration(v: Seq<char>) -> Result<HumanDuration, OverrideErrorModel> {
    match parse_duration(v) {
        Ok(secs) => Ok(HumanDuration(Span { secs: secs as u64, nanos: 0 })),
        Err(e) => Err(OverrideErrorModel::InvalidDuration(duration_error_text(e, v))),
    }
}

pub open spec fn set_option(c: ConfigModel, flag: Seq<char>, v: Seq<char>) -> SetOutcome {
    if flag == "--warning-interval"@ || flag == "--logout-interval"@ {
        if duration_overflows(v) {
            SetOutcome::Overflow
        } else {
            match set_duration(v) {
                Ok(d) => if flag == "--warning-interval"@ {
                    SetOutcome::Changed(ConfigModel { warning_interval: Some(d), ..c })
                } else {
                    SetOutcome::Changed(ConfigModel { logout_interval: d, ..c })
                },
                Err(e) => SetOutcome::Rejected(e),
            }
        }
    } else if flag == "--logout-command"@ {
        SetOutcome::Changed(ConfigModel { logout_command: v, ..c })
    } else {
        match parse_unsigned(v, u32::MAX as nat) {
            Ok(n) => if flag == "--off-hours-start"@ {
                SetOutcome::Changed(ConfigModel { off_hours_start: n as u32, ..c })
            } else {
                SetOutcome::Changed(ConfigModel { off_hours_end: n as u32, ..c })
            },
            Err(k) => SetOutcome::Rejected(OverrideErrorModel::InvalidHour(k)),
        }
    }
}

/// What applying the arguments from index `i` on to the settings `c` gives.
pub enum Walk {
    /// Every argument applied: the resulting settings.
    Done(ConfigModel),
    /// Stopped at an error: the settings as far as they had been changed.
    Failed(ConfigModel, OverrideErrorModel),
    Overflow,
}

/// Reads the arguments from the left: `--version`, `--verbose` and `--help`
/// change nothing, `--enforce` and `--no-enforce` set enforcement, the value
/// options set their setting from the next argument, and anything else is an
/// error.
pub open spec fn walk_overrides(c: ConfigModel, args: Seq<Seq<char>>, i: int) -> Walk
    decreases args.len() - i,
{
    if i < 0 || i >= args.len() {
        Walk::Done(c)
    } else {
        let a = args[i];
        if a == "--version"@ || a == "--verbose"@ || a == "--help"@ {
            walk_overrides(c, args, i + 1)
        } else if a == "--enforce"@ {
            walk_overrides(ConfigModel { enforce: true, ..c }, args, i + 1)
        } else if a == "--no-enforce"@ {
            walk_overrides(ConfigModel { enforce: false, ..c }, args, i + 1)
        } else if takes_value(a) {
            if i + 1 >= args.len() {
                Walk::Failed(c, OverrideErrorModel::MissingValue(a))
            } else {
                match set_option(c, a, args[i + 1]) {
                    SetOutcome::Changed(c2) => walk_overrides(c2, args, i + 2),
                    SetOutcome::Rejected(e) => Walk::Failed(c, e),
                    SetOutcome::Overflow => Walk::Overflow,
                }
            }
        } else {
            Walk::Failed(c, OverrideErrorModel::UnknownOption(a))
        }
    }
}

pub open spec fn arg_texts(args: Seq<String>) -> Seq<Seq<char>> {
    args.map_values(|s: String| s@)
}

/// Whether applying `args` would meet a minute count that overflows.
pub open spec fn overrides_overflow(args: Seq<Seq<char>>) -> bool {
    walk_overrides(ConfigModel {
        off_hours_start: 0,
        off_hours_end: 0,
        logout_interval: HumanDuration(Span { secs: 0, nanos: 0 }),
        warning_interval: None,
        logout_command: Seq::empty(),
        enforce: false,
    }, args, 0) is Overflow
}


/// Walking from any settings meets an overflowing minute count exactly when
/// walking from any other settings does: which arguments are read as what
/// does not depend on the settings.
proof fn lemma_overflow_independent(c1: ConfigModel, c2: ConfigModel, args: Seq<Seq<char>>, i: int)
    ensures
        (walk_overrides(c1, args, i) is Overflow) == (walk_overrides(c2, args, i) is Overflow),
    decreases args.len() - i,
{
    if i < 0 || i >= args.len() {
    } else {
        let a = args[i];
        if a == "--version"@ || a == "--verbose"@ || a == "--help"@ {
            lemma_overflow_independent(c1, c2, args, i + 1);
        } else if a == "--enforce"@ {
            lemma_overflow_independent(ConfigModel { enforce: true, ..c1 }, ConfigModel { enforce: true, ..c2 }, args, i + 1);
        } else if a == "--no-enforce"@ {
            lemma_overflow_independent(ConfigModel { enforce: false, ..c1 }, ConfigModel { enforce: false, ..c2 }, args, i + 1);
        } else if takes_value(a) && i + 1 < args.len() {
            match (set_option(c1, a, args[i + 1]), set_option(c2, a, args[i + 1])) {
                (SetOutcome::Changed(d1), SetOutcome::Changed(d2)) => lemma_overflow_independent(d1, d2, args, i + 2),
                _ => {},
            }
        }
    }
}

enum StepOutcome {
    Changed,
    Rejected(OverrideError),
    Overflow,
}

/// Sets the option `flag` from `value`.
fn set_from_arg(config: &mut Config, flag: &str, value: &str) -> (r: StepOutcome)
    requires
        takes_value(flag@),
    ensures
        match set_option(old(config)@, flag@, value@) {
            SetOutcome::Changed(c) => r is Changed && final(config)@ == c,
            SetOutcome::Rejected(e) => r matches StepOutcome::Rejected(e2) && e2@ == e && final(config)@ == old(config)@,
            SetOutcome::Overflow => r is Overflow && final(config)@ == old(config)@,
        },
{
    let warning = str_equals(flag, "--warning-interval");
    let logout = str_equals(flag, "--logout-interval");
    if warning || logout {
        if duration_setting_overflows(value) {
            return StepOutcome::Overflow;
        }
        match HumanDuration::from_str(value) {
            Ok(d) => {
                if warning {
                    config.warning_interval = Some(d);
                } else {
                    config.logout_interval = d;
                }
                StepOutcome::Changed
            },
            Err(msg) => StepOutcome::Rejected(OverrideError::InvalidDuration(msg)),
        }
    } else if str_equals(flag, "--logout-command") {
        config.logout_command = value.to_owned();
        StepOutcome::Changed
    } else {
        let v = chars_of(value);
        assert(v@.subrange(0, v@.len() as int) == value@);
        match parse_unsigned_in(&v, 0, v.len(), u32::MAX as u64) {
            Ok(n) => {
                if str_equals(flag, "--off-hours-start") {
                    config.off_hours_start = n as u32;
                } else {
                    config.off_hours_end = n as u32;
                }
                StepOutcome::Changed
            },
            Err(k) => StepOutcome::Rejected(OverrideError::InvalidHour(k)),
        }
    }
}

enum RunOutcome {
    Done,
    Failed(OverrideError),
    Overflow,
}

fn run_overrides(config: &mut Config, args: &[String]) -> (r: RunOutcome)
    ensures
        match walk_overrides(old(config)@, arg_texts(args@), 0) {
            Walk::Done(c) => r is Done && final(config)@ == c,
            Walk::Failed(c, e) => r matches RunOutcome::Failed(e2) && e2@ == e && final(config)@ == c,
            Walk::Overflow => r is Overflow,
        },
{
    let ghost texts = arg_texts(args@);
    let mut i: usize = 0;
    while i < args.len()
        invariant
            texts == arg_texts(args@),
            texts.len() == args@.len(),
            i <= args.len() + 1,
            walk_overrides(old(config)@, texts, 0) == walk_overrides(config@, texts, i as int),
        decreases args.len() - i,
    {
        let a = args[i].as_str();
        assert(texts[i as int] == a@);
        if str_equals(a, "--version") || str_equals(a, "--verbose") || str_equals(a, "--help") {
            i = i + 1;
        } else if str_equals(a, "--enforce") {
            config.enforce = true;
            i = i + 1;
        } else if str_equals(a, "--no-enforce") {
            config.enforce = false;
            i = i + 1;
        } else if str_equals(a, "--warning-interval") || str_equals(a, "--logout-interval")
            || str_equals(a, "--logout-command") || str_equals(a, "--off-hours-start")
            || str_equals(a, "--off-hours-end") {
            if i + 1 >= args.len() {
                return RunOutcome::Failed(OverrideError::MissingValue(args[i].clone()));
            }
            let v = args[i + 1].as_str();
            assert(texts[i + 1] == v@);
            match set_from_arg(config, a, v) {
                StepOutcome::Changed => {},
                StepOutcome::Rejected(e) => {
                    return RunOutcome::Failed(e);
                },
                StepOutcome::Overflow => {
                    return RunOutcome::Overflow;
                },
            }
            i = i + 2;
        } else {
            return RunOutcome::Failed(OverrideError::UnknownOption(args[i].clone()));
        }
    }
    RunOutcome::Done
}

/// Applies the command-line arguments `args` to `config`, from the left.
/// On an error the settings keep the changes of the arguments before it.
pub fn apply_overrides(config: &mut Config, args: &[String]) -> (r: Result<(), OverrideError>)
    requires
        !overrides_overflow(arg_texts(args@)),
    ensures
        match walk_overrides(old(config)@, arg_texts(args@), 0) {
            Walk::Done(c) => r is Ok && final(config)@ == c,
            Walk::Failed(c, e) => r matches Err(e2) && e2@ == e && final(config)@ == c,
            Walk::Overflow => false,
        },
{
    proof {
        lemma_overflow_independent(config@, ConfigModel {
            off_hours_start: 0,
            off_hours_end: 0,
            logout_interval: HumanDuration(Span { secs: 0, nanos: 0 }),
            warning_interval: None,
            logout_command: Seq::empty(),
            enforce: false,
        }, arg_texts(args@), 0);
    }
    match run_overrides(config, args) {
        RunOutcome::Done => Ok(()),
        RunOutcome::Failed(e) => Err(e),
        // The precondition rules an overflow out: this arm is never taken.
        RunOutcome::Overflow => Err(OverrideError::MissingValue(String::new())),
    }
}

/// Whether `args` hold a minute count for a duration option whose seconds
/// overflow a `u64`, where reading the durations would fail.
pub fn overrides_would_overflow(args: &[String]) -> (b: bool)
    ensures
        b == overrides_overflow(arg_texts(args@)),
{
    let mut scratch = Config {
        off_hours_start: 0,
        off_hours_end: 0,
        logout_interval: HumanDuration(Span::zero()),
        warning_interval: None,
        logout_command: String::new(),
        enforce: false,
    };
    match run_overrides(&mut scratch, args) {
        RunOutcome::Overflow => true,
        _ => false,
    }
}


/// Options that take no value.
pub open spec fn no_value_flag(a: Seq<char>) -> bool {
    ||| a == "--version"@
    ||| a == "--verbose"@
    ||| a == "--help"@
    ||| a == "--enforce"@
    ||| a == "--no-enforce"@
}

/// Whether the value option `flag` takes `v`: a duration that reads and fits
/// in a `u64` of seconds, any command, or an hour that reads as a `u32`.
pub open spec fn value_accepted(flag: Seq<char>, v: Seq<char>) -> bool {
    if flag == "--warning-interval"@ || flag == "--logout-interval"@ {
        parse_duration(v) is Ok && !duration_overflows(v)
    } else if flag == "--logout-command"@ {
        true
    } else {
        parse_unsigned(v, u32::MAX as nat) is Ok
    }
}

/// The hour that an accepted hour value gives.
pub open spec fn hour_value(v: Seq<char>) -> u32 {
    match parse_unsigned(v, u32::MAX as nat) {
        Ok(n) => n as u32,
        Err(_) => 0,
    }
}

/// The duration that an accepted duration value gives.
pub open spec fn duration_value(v: Seq<char>) -> HumanDuration {
    match parse_duration(v) {
        Ok(secs) => HumanDuration(Span { secs: secs as u64, nanos: 0 }),
        Err(_) => HumanDuration(Span { secs: 0, nanos: 0 }),
    }
}

/// Every argument from `i` on is a known option, and every value option has
/// a value that it takes.
pub open spec fn args_well_formed(args: Seq<Seq<char>>, i: int) -> bool
    decreases args.len() - i,
{
    if i < 0 || i >= args.len() {
        true
    } else if no_value_flag(args[i]) {
        args_well_formed(args, i + 1)
    } else if takes_value(args[i]) && i + 1 < args.len() && value_accepted(args[i], args[i + 1]) {
        args_well_formed(args, i + 2)
    } else {
        false
    }
}

/// The value of the last occurrence of the value option `flag` that the
/// reading of the arguments from `i` applies (it stops at the first argument
/// that is no known option or whose value is missing or not taken).
pub open spec fn last_value(args: Seq<Seq<char>>, i: int, flag: Seq<char>) -> Option<Seq<char>>
    decreases args.len() - i,
{
    if i < 0 || i >= args.len() {
        None
    } else if no_value_flag(args[i]) {
        last_value(args, i + 1, flag)
    } else if takes_value(args[i]) && i + 1 < args.len() && value_accepted(args[i], args[i + 1]) {
        match last_value(args, i + 2, flag) {
            Some(v) => Some(v),
            None => if args[i] == flag { Some(args[i + 1]) } else { None },
        }
    } else {
        None
    }
}

/// What the last `--enforce` or `--no-enforce` that the reading of the
/// arguments from `i` applies sets enforcement to.
pub open spec fn last_enforce(args: Seq<Seq<char>>, i: int) -> Option<bool>
    decreases args.len() - i,
{
    if i < 0 || i >= args.len() {
        None
    } else if no_value_flag(args[i]) {
        match last_enforce(args, i + 1) {
            Some(b) => Some(b),
            None => if args[i] == "--enforce"@ {
                Some(true)
            } else if args[i] == "--no-enforce"@ {
                Some(false)
            } else {
                None
            },
        }
    } else if takes_value(args[i]) && i + 1 < args.len() && value_accepted(args[i], args[i + 1]) {
        last_enforce(args, i + 2)
    } else {
        None
    }
}

/// The settings `c` with each setting that an applied option names set from
/// that option's last applied occurrence, and every other setting kept.
pub open spec fn settings_after(c: ConfigModel, args: Seq<Seq<char>>, i: int) -> ConfigModel {
    ConfigModel {
        off_hours_start: match last_value(args, i, "--off-hours-start"@) {
            Some(v) => hour_value(v),
            None => c.off_hours_start,
        },
        off_hours_end: match last_value(args, i, "--off-hours-end"@) {
            Some(v) => hour_value(v),
            None => c.off_hours_end,
        },
        logout_interval: match last_value(args, i, "--logout-interval"@) {
            Some(v) => duration_value(v),
            None => c.logout_interval,
        },
        warning_interval: match last_value(args, i, "--warning-interval"@) {
            Some(v) => Some(duration_value(v)),
            None => c.warning_interval,
        },
        logout_command: match last_value(args, i, "--logout-command"@) {
            Some(v) => v,
            None => c.logout_command,
        },
        enforce: match last_enforce(args, i) {
            Some(b) => b,
            None => c.enforce,
        },
    }
}

/// The lengths, and some characters, of the option names: enough to tell
/// any two of them apart.
proof fn lemma_flags_distinct()
    ensures
        "--version"@.len() == 9,
        "--verbose"@.len() == 9,
        "--help"@.len() == 6,
        "--enforce"@.len() == 9,
        "--no-enforce"@.len() == 12,
        "--warning-interval"@.len() == 18,
        "--logout-interval"@.len() == 17,
        "--logout-command"@.len() == 16,
        "--off-hours-start"@.len() == 17,
        "--off-hours-end"@.len() == 15,
        "--version"@[2] == 'v' && "--version"@[5] == 's',
        "--verbose"@[2] == 'v' && "--verbose"@[5] == 'b',
        "--enforce"@[2] == 'e',
        "--logout-interval"@[2] == 'l',
        "--off-hours-start"@[2] == 'o',
{
    reveal_strlit("--version");
    reveal_strlit("--verbose");
    reveal_strlit("--help");
    reveal_strlit("--enforce");
    reveal_strlit("--no-enforce");
    reveal_strlit("--warning-interval");
    reveal_strlit("--logout-interval");
    reveal_strlit("--logout-command");
    reveal_strlit("--off-hours-start");
    reveal_strlit("--off-hours-end");
}

/// Applying the arguments succeeds exactly when every argument is a known
/// option, every value option is followed by a value, and each value is
/// taken: durations that read (and fit), hours that read as a `u32`.
pub proof fn lemma_overrides_succeed_iff_well_formed(c: ConfigModel, args: Seq<Seq<char>>, i: int)
    ensures
        (walk_overrides(c, args, i) is Done) == args_well_formed(args, i),
    decreases args.len() - i,
{
    if i < 0 || i >= args.len() {
    } else {
        let a = args[i];
        if a == "--version"@ || a == "--verbose"@ || a == "--help"@ {
            lemma_overrides_succeed_iff_well_formed(c, args, i + 1);
        } else if a == "--enforce"@ {
            lemma_overrides_succeed_iff_well_formed(ConfigModel { enforce: true, ..c }, args, i + 1);
        } else if a == "--no-enforce"@ {
            lemma_overrides_succeed_iff_well_formed(ConfigModel { enforce: false, ..c }, args, i + 1);
        } else if takes_value(a) && i + 1 < args.len() {
            match set_option(c, a, args[i + 1]) {
                SetOutcome::Changed(c2) => lemma_overrides_succeed_iff_well_formed(c2, args, i + 2),
                _ => {},
            }
        }
    }
}

/// Whether the arguments apply in full or stop at an error, each setting that
/// an applied option names holds the value of that option's last applied
/// occurrence (`--enforce` and `--no-enforce` set enforcement to true and
/// false), and every setting that no applied option names keeps its value.
pub proof fn lemma_overrides_last_occurrence_wins(c: ConfigModel, args: Seq<Seq<char>>, i: int)
    ensures
        match walk_overrides(c, args, i) {
            Walk::Done(d) => d == settings_after(c, args, i),
            Walk::Failed(d, _) => d == settings_after(c, args, i),
            Walk::Overflow => true,
        },
    decreases args.len() - i,
{
    lemma_flags_distinct();
    if i < 0 || i >= args.len() {
    } else {
        let a = args[i];
        if a == "--version"@ || a == "--verbose"@ || a == "--help"@ {
            lemma_overrides_last_occurrence_wins(c, args, i + 1);
        } else if a == "--enforce"@ {
            lemma_overrides_last_occurrence_wins(ConfigModel { enforce: true, ..c }, args, i + 1);
        } else if a == "--no-enforce"@ {
            lemma_overrides_last_occurrence_wins(ConfigModel { enforce: false, ..c }, args, i + 1);
        } else if takes_value(a) && i + 1 < args.len() {
            match set_option(c, a, args[i + 1]) {
                SetOutcome::Changed(c2) => lemma_overrides_last_occurrence_wins(c2, args, i + 2),
                _ => {},
            }
        }
    }
}

} // verus!
