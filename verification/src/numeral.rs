//! Decimal numerals: reading an unsigned integer the way `str::parse` does for
//! `u32` and `u64`, trimming Unicode whitespace the way `str::trim` does, and
//! writing a number in decimal.

use vstd::prelude::*;

verus! {

/// Why a string is not an unsigned integer (the kinds `str::parse` reports).
#[derive(Clone, Copy, Debug, PartialEq, Eq, Structural)]
pub enum IntErrorKind {
    Empty,
    InvalidDigit,
    PosOverflow,
}

impl IntErrorKind {
    /// The text with which the error displays itself.
    pub open spec fn text(self) -> Seq<char> {
        match self {
            IntErrorKind::Empty => "cannot parse integer from empty string"@,
            IntErrorKind::InvalidDigit => "invalid digit found in string"@,
            IntErrorKind::PosOverflow => "number too large to fit in target type"@,
        }
    }

    pub fn message(&self) -> (s: String)
        ensures
            s@ == self.text(),
    {
        match self {
            IntErrorKind::Empty => "cannot parse integer from empty string".to_owned(),
            IntErrorKind::InvalidDigit => "invalid digit found in string".to_owned(),
            IntErrorKind::PosOverflow => "number too large to fit in target type".to_owned(),
        }
    }
}

pub open spec fn is_digit(c: char) -> bool {
    '0' <= c && c <= '9'
}

pub open spec fn digit_value(c: char) -> nat {
    (c as int - '0' as int) as nat
}

pub open spec fn digit_char(d: nat) -> char {
    if d == 0 { '0' }
    else if d == 1 { '1' }
    else if d == 2 { '2' }
    else if d == 3 { '3' }
    else if d == 4 { '4' }
    else if d == 5 { '5' }
    else if d == 6 { '6' }
    else if d == 7 { '7' }
    else if d == 8 { '8' }
    else { '9' }
}

/// The decimal numeral of `n`, without sign or leading zeros.
pub open spec fn decimal(n: nat) -> Seq<char>
    decreases n,
{
    if n < 10 {
        seq![digit_char(n)]
    } else {
        decimal(n / 10).push(digit_char(n % 10))
    }
}

/// Reading the digits `d` after a value `acc` already read.
pub open spec fn fold_digits(acc: nat, d: Seq<char>) -> nat
    decreases d.len(),
{
    if d.len() == 0 {
        acc
    } else {
        fold_digits(acc * 10 + digit_value(d[0]), d.drop_first())
    }
}

/// Reading digits from the left: the first character that is no digit, or
/// that takes the value past `max`, ends the scan with an error.
pub open spec fn scan_digits(acc: nat, d: Seq<char>, max: nat) -> Result<nat, IntErrorKind>
    decreases d.len(),
{
    if d.len() == 0 {
        Ok(acc)
    } else if !is_digit(d[0]) {
        Err(IntErrorKind::InvalidDigit)
    } else if acc * 10 + digit_value(d[0]) > max {
        Err(IntErrorKind::PosOverflow)
    } else {
        scan_digits(acc * 10 + digit_value(d[0]), d.drop_first(), max)
    }
}

/// An unsigned integer no larger than `max`: an optional `+`, then digits.
pub open spec fn parse_unsigned(s: Seq<char>, max: nat) -> Result<nat, IntErrorKind> {
    if s.len() == 0 {
        Err(IntErrorKind::Empty)
    } else if s.len() == 1 && (s[0] == '+' || s[0] == '-') {
        Err(IntErrorKind::InvalidDigit)
    } else if s[0] == '+' {
        scan_digits(0, s.drop_first(), max)
    } else {
        scan_digits(0, s, max)
    }
}

/// Unicode `White_Space`, the property `char::is_whitespace` tests.
pub open spec fn is_whitespace(c: char) -> bool {
    ||| ('\u{9}' <= c && c <= '\u{d}')
    ||| c == ' '
    ||| c == '\u{85}'
    ||| c == '\u{a0}'
    ||| c == '\u{1680}'
    ||| ('\u{2000}' <= c && c <= '\u{200a}')
    ||| c == '\u{2028}'
    ||| c == '\u{2029}'
    ||| c == '\u{202f}'
    ||| c == '\u{205f}'
    ||| c == '\u{3000}'
}

pub open spec fn trim_start(s: Seq<char>) -> Seq<char>
    decreases s.len(),
{
    if s.len() > 0 && is_whitespace(s[0]) {
        trim_start(s.drop_first())
    } else {
        s
    }
}

pub open spec fn trim_end(s: Seq<char>) -> Seq<char>
    decreases s.len(),
{
    if s.len() > 0 && is_whitespace(s.last()) {
        trim_end(s.drop_last())
    } else {
        s
    }
}

/// `s` without leading and trailing whitespace.
pub open spec fn trim(s: Seq<char>) -> Seq<char> {
    trim_end(trim_start(s))
}

pub fn is_whitespace_char(c: char) -> (b: bool)
    ensures
        b == is_whitespace(c),
{
    ('\u{9}' <= c && c <= '\u{d}') || c == ' ' || c == '\u{85}' || c == '\u{a0}'
        || c == '\u{1680}' || ('\u{2000}' <= c && c <= '\u{200a}') || c == '\u{2028}'
        || c == '\u{2029}' || c == '\u{202f}' || c == '\u{205f}' || c == '\u{3000}'
}

/// The bounds `(lo, hi)` of `v` without leading and trailing whitespace.
pub fn trim_bounds(v: &Vec<char>) -> (r: (usize, usize))
    ensures
        r.0 <= r.1 <= v.len(),
        v@.subrange(r.0 as int, r.1 as int) == trim(v@),
{
    let n = v.len();
    let mut lo: usize = 0;
    assert(v@.subrange(0, n as int) == v@);
    while lo < n && is_whitespace_char(v[lo])
        invariant
            n == v.len(),
            lo <= n,
            trim_start(v@) == trim_start(v@.subrange(lo as int, n as int)),
        decreases n - lo,
    {
        assert(v@.subrange(lo as int, n as int).drop_first() == v@.subrange(lo + 1, n as int));
        lo = lo + 1;
    }
    assert(trim_start(v@) == v@.subrange(lo as int, n as int));
    let mut hi: usize = n;
    while hi > lo && is_whitespace_char(v[hi - 1])
        invariant
            n == v.len(),
            lo <= hi <= n,
            trim(v@) == trim_end(v@.subrange(lo as int, hi as int)),
        decreases hi,
    {
        assert(v@.subrange(lo as int, hi as int).drop_last() == v@.subrange(lo as int, hi - 1));
        hi = hi - 1;
    }
    (lo, hi)
}

/// Reads `v[lo..hi]` as an unsigned integer no larger than `max`.
pub fn parse_unsigned_in(v: &Vec<char>, lo: usize, hi: usize, max: u64) -> (r: Result<u64, IntErrorKind>)
    requires
        lo <= hi <= v.len(),
    ensures
        match r {
            Ok(n) => parse_unsigned(v@.subrange(lo as int, hi as int), max as nat) == Ok::<nat, IntErrorKind>(n as nat),
            Err(e) => parse_unsigned(v@.subrange(lo as int, hi as int), max as nat) == Err::<nat, IntErrorKind>(e),
        },
{
    let ghost s = v@.subrange(lo as int, hi as int);
    if lo == hi {
        return Err(IntErrorKind::Empty);
    }
    if hi - lo == 1 && (v[lo] == '+' || v[lo] == '-') {
        return Err(IntErrorKind::InvalidDigit);
    }
    let mut i: usize = lo;
    if v[lo] == '+' {
        i = lo + 1;
        assert(s.drop_first() == v@.subrange(i as int, hi as int));
    } else {
        assert(s == v@.subrange(i as int, hi as int));
    }
    let mut acc: u64 = 0;
    while i < hi
        invariant
            lo <= i <= hi <= v.len(),
            acc <= max,
            s == v@.subrange(lo as int, hi as int),
            parse_unsigned(s, max as nat) == scan_digits(acc as nat, v@.subrange(i as int, hi as int), max as nat),
        decreases hi - i,
    {
        let ghost d = v@.subrange(i as int, hi as int);
        let c = v[i];
        assert(d[0] == c);
        assert(d.len() > 0);
        if !('0' <= c && c <= '9') {
            assert(!is_digit(d[0]));
            assert(scan_digits(acc as nat, d, max as nat) == Err::<nat, IntErrorKind>(IntErrorKind::InvalidDigit));
            assert(parse_unsigned(s, max as nat) == Err::<nat, IntErrorKind>(IntErrorKind::InvalidDigit));
            return Err(IntErrorKind::InvalidDigit);
        }
        let dv: u32 = (c as u32) - ('0' as u32);
        assert(dv == digit_value(d[0]));
        let next: u128 = (acc as u128) * 10 + (dv as u128);
        if next > max as u128 {
            assert(scan_digits(acc as nat, d, max as nat) == Err::<nat, IntErrorKind>(IntErrorKind::PosOverflow));
            assert(parse_unsigned(s, max as nat) == Err::<nat, IntErrorKind>(IntErrorKind::PosOverflow));
            return Err(IntErrorKind::PosOverflow);
        }
        assert(d.drop_first() == v@.subrange(i + 1, hi as int));
        acc = next as u64;
        i = i + 1;
    }
    Ok(acc)
}

fn digit_to_char(d: u64) -> (c: char)
    requires
        d < 10,
    ensures
        c == digit_char(d as nat),
{
    if d == 0 { '0' }
    else if d == 1 { '1' }
    else if d == 2 { '2' }
    else if d == 3 { '3' }
    else if d == 4 { '4' }
    else if d == 5 { '5' }
    else if d == 6 { '6' }
    else if d == 7 { '7' }
    else if d == 8 { '8' }
    else { '9' }
}

/// Appends the decimal numeral of `n` to `out`.
pub fn push_decimal(out: &mut Vec<char>, n: u64)
    ensures
        final(out)@ == old(out)@ + decimal(n as nat),
    decreases n,
{
    if n >= 10 {
        push_decimal(out, n / 10);
    }
    let c = digit_to_char(n % 10);
    out.push(c);
    proof {
        if n >= 10 {
            assert(old(out)@ + decimal(n as nat) == (old(out)@ + decimal((n / 10) as nat)).push(c));
        } else {
            assert(old(out)@ + decimal(n as nat) == old(out)@.push(c));
        }
    }
}

pub proof fn lemma_digit_char(d: nat)
    requires
        d < 10,
    ensures
        is_digit(digit_char(d)),
        digit_value(digit_char(d)) == d,
{
}

/// Every character of a decimal numeral is a digit.
pub proof fn lemma_decimal_digits(n: nat)
    ensures
        decimal(n).len() >= 1,
        forall|i: int| 0 <= i < decimal(n).len() ==> is_digit(#[trigger] decimal(n)[i]),
    decreases n,
{
    if n < 10 {
        lemma_digit_char(n);
    } else {
        lemma_decimal_digits(n / 10);
        lemma_digit_char(n % 10);
    }
}

proof fn lemma_fold_push(acc: nat, s: Seq<char>, c: char)
    ensures
        fold_digits(acc, s.push(c)) == fold_digits(acc, s) * 10 + digit_value(c),
    decreases s.len(),
{
    let sc = s.push(c);
    assert(sc[0] == if s.len() == 0 { c } else { s[0] });
    if s.len() == 0 {
        assert(sc.drop_first() =~= Seq::<char>::empty());
        assert(fold_digits(acc * 10 + digit_value(c), Seq::<char>::empty()) == acc * 10 + digit_value(c));
    } else {
        assert(sc.drop_first() =~= s.drop_first().push(c));
        lemma_fold_push(acc * 10 + digit_value(s[0]), s.drop_first(), c);
    }
}

proof fn lemma_fold_decimal(n: nat)
    ensures
        fold_digits(0, decimal(n)) == n,
    decreases n,
{
    if n < 10 {
        lemma_digit_char(n);
        assert(decimal(n) == seq![digit_char(n)]);
        assert(decimal(n)[0] == digit_char(n));
        assert(decimal(n).drop_first() =~= Seq::<char>::empty());
        assert(fold_digits(digit_value(digit_char(n)), Seq::<char>::empty()) == n);
    } else {
        assert(decimal(n) == decimal(n / 10).push(digit_char(n % 10)));
        lemma_fold_decimal(n / 10);
        lemma_digit_char(n % 10);
        lemma_fold_push(0, decimal(n / 10), digit_char(n % 10));
    }
}

proof fn lemma_fold_grows(acc: nat, d: Seq<char>)
    ensures
        fold_digits(acc, d) >= acc,
    decreases d.len(),
{
    if d.len() > 0 {
        lemma_fold_grows(acc * 10 + digit_value(d[0]), d.drop_first());
    }
}

proof fn lemma_scan_digits(acc: nat, d: Seq<char>, max: nat)
    requires
        forall|i: int| 0 <= i < d.len() ==> is_digit(#[trigger] d[i]),
        fold_digits(acc, d) <= max,
    ensures
        scan_digits(acc, d, max) == Ok::<nat, IntErrorKind>(fold_digits(acc, d)),
    decreases d.len(),
{
    if d.len() > 0 {
        let next = acc * 10 + digit_value(d[0]);
        lemma_fold_grows(next, d.drop_first());
        assert(is_digit(d[0]));
        lemma_scan_digits(next, d.drop_first(), max);
    }
}

/// A decimal numeral reads back as the number it was written from, and has
/// no whitespace to trim.
pub proof fn lemma_decimal_reads_back(n: nat, max: nat)
    requires
        n <= max,
    ensures
        trim(decimal(n)) == decimal(n),
        parse_unsigned(decimal(n), max) == Ok::<nat, IntErrorKind>(n),
{
    lemma_decimal_digits(n);
    lemma_fold_decimal(n);
    lemma_scan_digits(0, decimal(n), max);
    let s = decimal(n);
    assert(is_digit(s[0]));
    assert(is_digit(s.last()));
    assert(trim_start(s) == s);
    assert(trim_end(s) == s);
}

} // verus!
