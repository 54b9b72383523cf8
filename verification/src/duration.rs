//! Spans of time, and the human-readable durations of the configuration
//! ("30m", "45s").

use vstd::prelude::*;
use crate::numeral::{
    decimal, lemma_decimal_reads_back, parse_unsigned, parse_unsigned_in, push_decimal, trim, trim_bounds,
    IntErrorKind,
};
use crate::text::{chars_of, push_char, string_of};

verus! {

/// A span of time in whole seconds plus nanoseconds: what a
/// `std::time::Duration` holds.
#[derive(Clone, Copy, Debug, PartialEq, Eq, Structural)]
pub struct Span {
    pub secs: u64,
    pub nanos: u32,
}

pub open spec fn nanos_per_sec() -> int {
    1_000_000_000
}

impl Span {
    pub open spec fn wf(self) -> bool {
        self.nanos < 1_000_000_000
    }

    /// The length of the span in nanoseconds.
    pub open spec fn total(self) -> int {
        self.secs * nanos_per_sec() + self.nanos
    }

    pub fn zero() -> (s: Span)
        ensures
            s.wf(),
            s.total() == 0,
            s.secs == 0 && s.nanos == 0,
    {
        Span { secs: 0, nanos: 0 }
    }

    pub fn from_secs(secs: u64) -> (s: Span)
        ensures
            s.wf(),
            s.secs == secs,
            s.nanos == 0,
    {
        Span { secs, nanos: 0 }
    }

    pub fn as_secs(&self) -> (r: u64)
        ensures
            r == self.secs,
    {
        self.secs
    }

    pub fn is_zero(&self) -> (b: bool)
        ensures
            b == (self.total() == 0),
    {
        self.secs == 0 && self.nanos == 0
    }

    /// `self - other`, or zero where `other` is the longer span.
    pub fn saturating_sub(&self, other: &Span) -> (r: Span)
        requires
            self.wf(),
            other.wf(),
        ensures
            r.wf(),
            r.total() == if self.total() >= other.total() { self.total() - other.total() } else { 0 },
    {
        if self.secs > other.secs || (self.secs == other.secs && self.nanos >= other.nanos) {
            if self.nanos >= other.nanos {
                Span { secs: self.secs - other.secs, nanos: self.nanos - other.nanos }
            } else {
                Span { secs: self.secs - other.secs - 1, nanos: self.nanos + 1_000_000_000 - other.nanos }
            }
        } else {
            proof {
                assert(self.total() < other.total()) by (nonlinear_arith)
                    requires
                        self.secs < other.secs || (self.secs == other.secs && self.nanos < other.nanos),
                        self.nanos < 1_000_000_000,
                        other.nanos < 1_000_000_000,
                        self.total() == self.secs * 1_000_000_000 + self.nanos,
                        other.total() == other.secs * 1_000_000_000 + other.nanos,
                ;
            }
            Span::zero()
        }
    }
}

/// Why a duration setting could not be read.
#[derive(Clone, Copy, Debug, PartialEq, Eq, Structural)]
pub enum DurationError {
    /// The number before the unit is no unsigned integer.
    Number(IntErrorKind),
    /// The text ends in neither `m` nor `s`.
    NoUnit,
}

/// The seconds that a duration setting stands for: a number (whitespace
/// around it is ignored) followed by `m` for minutes or `s` for seconds.
pub open spec fn parse_duration(s: Seq<char>) -> Result<nat, DurationError> {
    if s.len() > 0 && s.last() == 'm' {
        match parse_unsigned(trim(s.drop_last()), u64::MAX as nat) {
            Ok(m) => Ok(m * 60),
            Err(e) => Err(DurationError::Number(e)),
        }
    } else if s.len() > 0 && s.last() == 's' {
        match parse_unsigned(trim(s.drop_last()), u64::MAX as nat) {
            Ok(n) => Ok(n),
            Err(e) => Err(DurationError::Number(e)),
        }
    } else {
        Err(DurationError::NoUnit)
    }
}

/// A number of minutes whose seconds do not fit in a `u64`.
pub open spec fn duration_overflows(s: Seq<char>) -> bool {
    match parse_duration(s) {
        Ok(secs) => secs > u64::MAX,
        Err(_) => false,
    }
}

/// Name for the text that `format!("{:?}", s)` gives for a string: the
/// string in double quotes, with special characters escaped.
pub uninterp spec fn debug_text(s: Seq<char>) -> Seq<char>;

/// `<str as Debug>::fmt`, through `format!("{:?}", ..)`: the contract claims
/// only that the result is a function of the string's characters.
#[verifier::external_body]
fn debug_quoted(s: &str) -> (r: String)
    ensures
        r@ == debug_text(s@),
{
    format!("{:?}", s)
}

/// The message of a duration setting `s` that could not be read.
pub open spec fn duration_error_text(e: DurationError, s: Seq<char>) -> Seq<char> {
    match e {
        DurationError::Number(k) => k.text(),
        DurationError::NoUnit => "expected duration like \"30m\" or \"30s\", got "@ + debug_text(s),
    }
}

/// Reads a duration setting into seconds (which may exceed a `u64` for minutes).
fn read_seconds(v: &Vec<char>) -> (r: Result<u128, DurationError>)
    ensures
        match r {
            Ok(n) => parse_duration(v@) == Ok::<nat, DurationError>(n as nat),
            Err(e) => parse_duration(v@) == Err::<nat, DurationError>(e),
        },
{
    let n = v.len();
    if n == 0 || (v[n - 1] != 'm' && v[n - 1] != 's') {
        return Err(DurationError::NoUnit);
    }
    let minutes = v[n - 1] == 'm';
    let ghost body = v@.drop_last();
    assert(v@.subrange(0, n - 1) == body);
    let mut digits: Vec<char> = Vec::new();
    let mut i: usize = 0;
    while i < n - 1
        invariant
            n == v.len(),
            n >= 1,
            i <= n - 1,
            digits@ == v@.subrange(0, i as int),
        decreases n - 1 - i,
    {
        digits.push(v[i]);
        i = i + 1;
    }
    let (lo, hi) = trim_bounds(&digits);
    match parse_unsigned_in(&digits, lo, hi, u64::MAX) {
        Ok(k) => {
            if minutes {
                Ok(k as u128 * 60)
            } else {
                Ok(k as u128)
            }
        },
        Err(e) => Err(DurationError::Number(e)),
    }
}

/// Whether reading the duration setting `s` would overflow a `u64` of seconds.
pub fn duration_setting_overflows(s: &str) -> (b: bool)
    ensures
        b == duration_overflows(s@),
{
    let v = chars_of(s);
    match read_seconds(&v) {
        Ok(n) => n > u64::MAX as u128,
        Err(_) => false,
    }
}

/// The text of a duration: whole minutes as "<n>m", anything else as "<n>s".
pub open spec fn display_text(secs: nat) -> Seq<char> {
    if secs % 60 == 0 {
        decimal(secs / 60).push('m')
    } else {
        decimal(secs).push('s')
    }
}

/// A duration that reads and prints as "30m" or "30s".
#[derive(Clone, Copy, Debug, PartialEq, Eq, Structural)]
pub struct HumanDuration(pub Span);

impl Default for HumanDuration {
    /// Thirty minutes.
    fn default() -> (d: HumanDuration)
        ensures
            d.0.wf(),
            d.0.secs == 1800,
            d.0.nanos == 0,
    {
        HumanDuration(Span::from_secs(30 * 60))
    }
}

impl HumanDuration {
    /// The text of the duration (sub-second parts are not shown).
    pub fn to_string(&self) -> (s: String)
        ensures
            s@ == display_text(self.0.secs as nat),
    {
        let secs = self.0.as_secs();
        let mut v: Vec<char> = Vec::new();
        if secs % 60 == 0 {
            push_decimal(&mut v, secs / 60);
            v.push('m');
        } else {
            push_decimal(&mut v, secs);
            v.push('s');
        }
        assert(v@ == display_text(secs as nat));
        string_of(&v)
    }

    /// Reads a duration setting such as "30m" or "30s".
    pub fn from_str(s: &str) -> (r: Result<HumanDuration, String>)
        requires
            !duration_overflows(s@),
        ensures
            match r {
                Ok(d) => parse_duration(s@) == Ok::<nat, DurationError>(d.0.secs as nat) && d.0.wf() && d.0.nanos == 0,
                Err(msg) => exists|e: DurationError|
                    parse_duration(s@) == Err::<nat, DurationError>(e) && msg@ == duration_error_text(e, s@),
            },
    {
        let v = chars_of(s);
        match read_seconds(&v) {
            Ok(n) => {
                assert(n <= u64::MAX);
                Ok(HumanDuration(Span::from_secs(n as u64)))
            },
            Err(DurationError::Number(k)) => {
                let msg = k.message();
                assert(msg@ == duration_error_text(DurationError::Number(k), s@));
                Err(msg)
            },
            Err(DurationError::NoUnit) => {
                let mut msg = "expected duration like \"30m\" or \"30s\", got ".to_owned();
                let quoted = debug_quoted(s);
                let mut i: usize = 0;
                let ghost head = msg@;
                let qv = chars_of(quoted.as_str());
                while i < qv.len()
                    invariant
                        i <= qv.len(),
                        qv@ == debug_text(s@),
                        msg@ == head + qv@.subrange(0, i as int),
                    decreases qv.len() - i,
                {
                    push_char(&mut msg, qv[i]);
                    assert(qv@.subrange(0, i + 1) == qv@.subrange(0, i as int).push(qv@[i as int]));
                    i = i + 1;
                }
                assert(qv@.subrange(0, qv@.len() as int) == qv@);
                assert(msg@ == duration_error_text(DurationError::NoUnit, s@));
                Err(msg)
            },
        }
    }
}

/// A whole-second duration reads back from its own text.
pub proof fn lemma_display_reads_back(secs: u64)
    ensures
        !duration_overflows(display_text(secs as nat)),
        parse_duration(display_text(secs as nat)) == Ok::<nat, DurationError>(secs as nat),
{
    let s = display_text(secs as nat);
    if secs % 60 == 0 {
        let k = (secs / 60) as nat;
        lemma_decimal_reads_back(k, u64::MAX as nat);
        assert(s.drop_last() == decimal(k));
        assert(k * 60 == secs);
    } else {
        lemma_decimal_reads_back(secs as nat, u64::MAX as nat);
        assert(s.drop_last() == decimal(secs as nat));
    }
}


/// A number followed by `s` reads as that many seconds, and followed by `m`
/// as sixty times that many, for every number a `u64` holds (and, for
/// minutes, whose seconds fit in one).
pub proof fn lemma_unit_reads(n: u64)
    ensures
        parse_duration(decimal(n as nat).push('s')) == Ok::<nat, DurationError>(n as nat),
        parse_duration(decimal(n as nat).push('m')) == Ok::<nat, DurationError>(60 * (n as nat)),
        !duration_overflows(decimal(n as nat).push('s')),
        n * 60 <= u64::MAX ==> !duration_overflows(decimal(n as nat).push('m')),
{
    lemma_decimal_reads_back(n as nat, u64::MAX as nat);
    assert(decimal(n as nat).push('s').drop_last() == decimal(n as nat));
    assert(decimal(n as nat).push('m').drop_last() == decimal(n as nat));
}

} // verus!
