//! Duration expressions: `<int>h`, `<int>m` and `<int>:<int>:<int>`.
//!
//! An integer is an optional sign and decimal digits that fit in 64 bits. The
//! fields of the colon form are hours, minutes and seconds; none is held to
//! its usual range. The seconds of a duration are computed by chrono's
//! `TimeDelta`, so a duration is in range exactly when chrono can hold it.

use vstd::prelude::*;
use vstd::string::*;
use chrono::TimeDelta;
use crate::text::{decimal, digit_char, digit_value, is_digit};

verus! {

/// Why a duration expression was turned down.
#[derive(Clone, Copy, Debug, PartialEq, Eq, Structural)]
pub enum DurationError {
    /// The hours are not an integer.
    InvalidHours,
    /// The minutes are not an integer.
    InvalidMinutes,
    /// The seconds are not an integer.
    InvalidSeconds,
    /// The text has none of the three forms.
    InvalidFormat,
    /// The fields are integers, but the duration is longer than can be held.
    OutOfRange,
}

impl DurationError {
    /// The words that report the error.
    pub open spec fn message_text(self) -> Seq<char> {
        match self {
            DurationError::InvalidHours => "Invalid number for hours"@,
            DurationError::InvalidMinutes => "Invalid number for minutes"@,
            DurationError::InvalidSeconds => "Invalid number for seconds"@,
            DurationError::InvalidFormat => "Invalid duration format"@,
            DurationError::OutOfRange => "Duration out of range"@,
        }
    }

    /// The words that report the error.
    pub fn message(&self) -> (text: &'static str)
        ensures
            text@ == self.message_text(),
    {
        match self {
            DurationError::InvalidHours => "Invalid number for hours",
            DurationError::InvalidMinutes => "Invalid number for minutes",
            DurationError::InvalidSeconds => "Invalid number for seconds",
            DurationError::InvalidFormat => "Invalid duration format",
            DurationError::OutOfRange => "Duration out of range",
        }
    }
}

/// The longest duration, in seconds, either way from zero.
pub const MAX_SPAN_SECONDS: i64 = 9_223_372_036_854_775;

/// Whether a number of seconds is a duration that can be held.
pub open spec fn span_fits(seconds: int) -> bool {
    -MAX_SPAN_SECONDS <= seconds <= MAX_SPAN_SECONDS
}

/// The duration of `seconds`, if it can be held.
pub open spec fn span_of(seconds: int) -> Option<i64> {
    if span_fits(seconds) {
        Some(seconds as i64)
    } else {
        None
    }
}

/// Whether `s` holds decimal digits only.
pub open spec fn all_digits(s: Seq<char>) -> bool {
    forall|i: int| 0 <= i < s.len() ==> is_digit(#[trigger] s[i])
}

/// The number that a row of decimal digits writes.
pub open spec fn digits_value(s: Seq<char>) -> nat
    decreases s.len(),
{
    if s.len() == 0 {
        0
    } else {
        digits_value(s.drop_last()) * 10 + digit_value(s.last())
    }
}

/// The integer that `s` writes: an optional `+` or `-`, then at least one
/// decimal digit and nothing else.
pub open spec fn integer_value(s: Seq<char>) -> Option<int> {
    if s.len() > 0 && (s[0] == '+' || s[0] == '-') {
        let body = s.skip(1);
        if body.len() > 0 && all_digits(body) {
            Some(
                if s[0] == '-' {
                    -(digits_value(body) as int)
                } else {
                    digits_value(body) as int
                },
            )
        } else {
            None
        }
    } else if s.len() > 0 && all_digits(s) {
        Some(digits_value(s) as int)
    } else {
        None
    }
}

/// The integer that `s` writes, if it fits in 64 bits.
pub open spec fn integer_field(s: Seq<char>) -> Option<i64> {
    match integer_value(s) {
        Some(v) => if i64::MIN <= v <= i64::MAX {
            Some(v as i64)
        } else {
            None
        },
        None => None,
    }
}

/// The place of the first colon of `s` at or after `from`; the length of `s`
/// if there is none.
pub open spec fn colon_at(s: Seq<char>, from: int) -> int
    decreases s.len() - from,
{
    if from < 0 || from >= s.len() {
        s.len() as int
    } else if s[from] == ':' {
        from
    } else {
        colon_at(s, from + 1)
    }
}

/// The three fields of a text with exactly two colons.
pub open spec fn triplet(s: Seq<char>) -> Option<(Seq<char>, Seq<char>, Seq<char>)> {
    let i = colon_at(s, 0);
    let j = colon_at(s, i + 1);
    if i < s.len() && j < s.len() && colon_at(s, j + 1) == s.len() {
        Some((s.subrange(0, i), s.subrange(i + 1, j), s.subrange(j + 1, s.len() as int)))
    } else {
        None
    }
}

/// The seconds of hours, minutes and seconds together. Each part, the hours
/// and minutes together, and the whole must be durations that can be held.
pub open spec fn triplet_span(hours: int, minutes: int, seconds: int) -> Option<i64> {
    if span_fits(hours * 3600) && span_fits(minutes * 60) && span_fits(seconds) && span_fits(
        hours * 3600 + minutes * 60,
    ) {
        span_of(hours * 3600 + minutes * 60 + seconds)
    } else {
        None
    }
}

/// A duration in seconds, or the error that stands for its being too long.
pub open spec fn in_range(span: Option<i64>) -> Result<i64, DurationError> {
    match span {
        Some(seconds) => Ok(seconds),
        None => Err(DurationError::OutOfRange),
    }
}

/// The seconds that a duration expression stands for.
///
/// A text that ends in `h` is hours, one that ends in `m` is minutes, and
/// whatever is in front must be an integer. Any other text must be three
/// integers between two colons; the first field that is no integer is the
/// one reported.
pub open spec fn duration_of(s: Seq<char>) -> Result<i64, DurationError> {
    if s.len() > 0 && s.last() == 'h' {
        match integer_field(s.drop_last()) {
            Some(hours) => in_range(span_of(hours * 3600)),
            None => Err(DurationError::InvalidHours),
        }
    } else if s.len() > 0 && s.last() == 'm' {
        match integer_field(s.drop_last()) {
            Some(minutes) => in_range(span_of(minutes * 60)),
            None => Err(DurationError::InvalidMinutes),
        }
    } else {
        match triplet(s) {
            Some((h, m, sec)) => match integer_field(h) {
                Some(hours) => match integer_field(m) {
                    Some(minutes) => match integer_field(sec) {
                        Some(seconds) => in_range(
                            triplet_span(hours as int, minutes as int, seconds as int),
                        ),
                        None => Err(DurationError::InvalidSeconds),
                    },
                    None => Err(DurationError::InvalidMinutes),
                },
                None => Err(DurationError::InvalidHours),
            },
            None => Err(DurationError::InvalidFormat),
        }
    }
}

/// chrono's `TimeDelta::try_hours`, read back with `num_seconds`: the hours
/// in seconds, or nothing when chrono cannot hold a duration of that length.
#[verifier::external_body]
fn hours_span(hours: i64) -> (span: Option<i64>)
    ensures
        span == span_of(hours * 3600),
{
    TimeDelta::try_hours(hours).map(|d| d.num_seconds())
}

/// chrono's `TimeDelta::try_minutes`, read back with `num_seconds`: the
/// minutes in seconds, or nothing when chrono cannot hold a duration of that
/// length.
#[verifier::external_body]
fn minutes_span(minutes: i64) -> (span: Option<i64>)
    ensures
        span == span_of(minutes * 60),
{
    TimeDelta::try_minutes(minutes).map(|d| d.num_seconds())
}

/// chrono's `TimeDelta::try_seconds`, read back with `num_seconds`: the same
/// number, or nothing when chrono cannot hold a duration of that length.
#[verifier::external_body]
fn seconds_span(seconds: i64) -> (span: Option<i64>)
    ensures
        span == span_of(seconds as int),
{
    TimeDelta::try_seconds(seconds).map(|d| d.num_seconds())
}

/// chrono's `TimeDelta::checked_add` on two durations of whole seconds, read
/// back with `num_seconds`: their sum, or nothing when chrono cannot hold it.
#[verifier::external_body]
fn add_spans(a: i64, b: i64) -> (span: Option<i64>)
    requires
        span_fits(a as int),
        span_fits(b as int),
    ensures
        span == span_of(a + b),
{
    let a = TimeDelta::try_seconds(a)?;
    let b = TimeDelta::try_seconds(b)?;
    a.checked_add(&b).map(|d| d.num_seconds())
}

/// With one more digit a row of digits writes ten times as much and the
/// digit.
proof fn lemma_digits_push(s: Seq<char>, c: char)
    ensures
        digits_value(s.push(c)) == digits_value(s) * 10 + digit_value(c),
{
    assert(s.push(c).drop_last() =~= s);
}

/// Reads the integer written between the places `from` and `to` of `s`.
pub fn parse_integer(s: &str, from: usize, to: usize) -> (value: Option<i64>)
    requires
        from <= to <= s@.len(),
    ensures
        value == integer_field(s@.subrange(from as int, to as int)),
{
    let ghost field = s@.subrange(from as int, to as int);
    if from == to {
        return None;
    }
    let sign = s.get_char(from);
    let negative = sign == '-';
    let start = if sign == '-' || sign == '+' {
        from + 1
    } else {
        from
    };
    let ghost body = s@.subrange(start as int, to as int);
    assert(start > from ==> body =~= field.skip(1));
    if start == to {
        return None;
    }
    let mut magnitude: u64 = 0;
    let mut beyond = false;
    let mut i = start;
    while i < to
        invariant
            start <= i <= to <= s@.len(),
            all_digits(s@.subrange(start as int, i as int)),
            !beyond ==> magnitude == digits_value(s@.subrange(start as int, i as int))
                && magnitude <= 0x8000_0000_0000_0000,
            beyond ==> digits_value(s@.subrange(start as int, i as int)) > 0x8000_0000_0000_0000,
            body == s@.subrange(start as int, to as int),
            integer_field(s@.subrange(from as int, to as int)) is Some ==> all_digits(body),
        decreases to - i,
    {
        let c = s.get_char(i);
        let ghost seen = s@.subrange(start as int, i as int);
        if !(c >= '0' && c <= '9') {
            assert(body[i - start] == c);
            return None;
        }
        proof {
            assert(s@.subrange(start as int, i + 1) =~= seen.push(c));
            lemma_digits_push(seen, c);
        }
        if !beyond {
            let digit = (c as u32 - '0' as u32) as u128;
            let next = magnitude as u128 * 10 + digit;
            if next > 0x8000_0000_0000_0000 {
                beyond = true;
            } else {
                magnitude = next as u64;
            }
        }
        i += 1;
    }
    if beyond {
        None
    } else if negative {
        Some((-(magnitude as i128)) as i64)
    } else if magnitude > 0x7fff_ffff_ffff_ffff {
        None
    } else {
        Some(magnitude as i64)
    }
}

/// Finds the first colon of `s` at or after `from`; the length of `s` if
/// there is none.
pub fn find_colon(s: &str, from: usize) -> (at: usize)
    requires
        from <= s@.len(),
    ensures
        at == colon_at(s@, from as int),
        from <= at <= s@.len(),
{
    let n = s.unicode_len();
    let mut i = from;
    while i < n
        invariant
            from <= i <= n == s@.len(),
            colon_at(s@, from as int) == colon_at(s@, i as int),
        decreases n - i,
    {
        if s.get_char(i) == ':' {
            return i;
        }
        i += 1;
    }
    i
}

/// Adds up hours, minutes and seconds as durations.
pub fn sum_triplet(hours: i64, minutes: i64, seconds: i64) -> (span: Option<i64>)
    ensures
        span == triplet_span(hours as int, minutes as int, seconds as int),
{
    let h = hours_span(hours)?;
    let m = minutes_span(minutes)?;
    let hm = add_spans(h, m)?;
    let sec = seconds_span(seconds)?;
    add_spans(hm, sec)
}

/// Reads a duration expression and gives its length in seconds.
///
/// `3h` is three hours, `125m` is 125 minutes, `3:12:15` is three hours,
/// twelve minutes and fifteen seconds. Any other text is an error, and so is
/// a duration that is longer than [`MAX_SPAN_SECONDS`].
pub fn parse_duration(s: &str) -> (r: Result<i64, DurationError>)
    ensures
        r == duration_of(s@),
{
    let n = s.unicode_len();
    if n > 0 {
        let last = s.get_char(n - 1);
        if last == 'h' {
            return match parse_integer(s, 0, n - 1) {
                Some(hours) => match hours_span(hours) {
                    Some(seconds) => Ok(seconds),
                    None => Err(DurationError::OutOfRange),
                },
                None => Err(DurationError::InvalidHours),
            };
        }
        if last == 'm' {
            return match parse_integer(s, 0, n - 1) {
                Some(minutes) => match minutes_span(minutes) {
                    Some(seconds) => Ok(seconds),
                    None => Err(DurationError::OutOfRange),
                },
                None => Err(DurationError::InvalidMinutes),
            };
        }
    }
    let first = find_colon(s, 0);
    if first >= n {
        return Err(DurationError::InvalidFormat);
    }
    let second = find_colon(s, first + 1);
    if second >= n {
        return Err(DurationError::InvalidFormat);
    }
    if find_colon(s, second + 1) < n {
        return Err(DurationError::InvalidFormat);
    }
    let hours = match parse_integer(s, 0, first) {
        Some(hours) => hours,
        None => { return Err(DurationError::InvalidHours); },
    };
    let minutes = match parse_integer(s, first + 1, second) {
        Some(minutes) => minutes,
        None => { return Err(DurationError::InvalidMinutes); },
    };
    let seconds = match parse_integer(s, second + 1, n) {
        Some(seconds) => seconds,
        None => { return Err(DurationError::InvalidSeconds); },
    };
    match sum_triplet(hours, minutes, seconds) {
        Some(total) => Ok(total),
        None => Err(DurationError::OutOfRange),
    }
}

/// Whether `s` has one of the three forms with an integer in every field.
pub open spec fn well_formed(s: Seq<char>) -> bool {
    ||| s.len() > 0 && (s.last() == 'h' || s.last() == 'm') && integer_field(s.drop_last()) is Some
    ||| exists|h: Seq<char>, m: Seq<char>, sec: Seq<char>|
        s == #[trigger] joined(h, m, sec) && integer_field(h) is Some && integer_field(m) is Some
            && integer_field(sec) is Some
}

/// Three fields written with a colon between each two.
pub open spec fn joined(h: Seq<char>, m: Seq<char>, sec: Seq<char>) -> Seq<char> {
    h + seq![':'] + m + seq![':'] + sec
}

/// An integer is written without a colon and ends in a digit.
proof fn lemma_integer_text(s: Seq<char>)
    requires
        integer_value(s) is Some,
    ensures
        s.len() > 0,
        is_digit(s.last()),
        forall|i: int| 0 <= i < s.len() ==> #[trigger] s[i] != ':',
{
    if s[0] == '+' || s[0] == '-' {
        let body = s.skip(1);
        assert forall|i: int| 0 <= i < s.len() implies #[trigger] s[i] != ':' by {
            if i > 0 {
                assert(is_digit(body[i - 1]));
            }
        }
    }
}

/// The search for a colon passes over everything that is none.
proof fn lemma_colon_at(s: Seq<char>, from: int, at: int)
    requires
        0 <= from <= at <= s.len(),
        forall|i: int| from <= i < at ==> #[trigger] s[i] != ':',
        at < s.len() ==> s[at] == ':',
    ensures
        colon_at(s, from) == at,
    decreases at - from,
{
    if from < at {
        lemma_colon_at(s, from + 1, at);
    }
}

/// A text with exactly two colons is its three fields joined again, and
/// three colon-free fields joined are split at the two colons.
pub proof fn lemma_triplet_joined(h: Seq<char>, m: Seq<char>, sec: Seq<char>)
    requires
        forall|i: int| 0 <= i < h.len() ==> #[trigger] h[i] != ':',
        forall|i: int| 0 <= i < m.len() ==> #[trigger] m[i] != ':',
        forall|i: int| 0 <= i < sec.len() ==> #[trigger] sec[i] != ':',
    ensures
        triplet(joined(h, m, sec)) == Some((h, m, sec)),
{
    let s = joined(h, m, sec);
    let i = h.len() as int;
    let j = i + 1 + m.len();
    lemma_colon_at(s, 0, i);
    lemma_colon_at(s, i + 1, j);
    lemma_colon_at(s, j + 1, s.len() as int);
}

/// The place that the search for a colon gives holds one, unless it is the
/// end of the text.
proof fn lemma_colon_found(s: Seq<char>, from: int)
    requires
        0 <= from <= s.len(),
    ensures
        from <= colon_at(s, from) <= s.len(),
        colon_at(s, from) < s.len() ==> s[colon_at(s, from)] == ':',
    decreases s.len() - from,
{
    if from < s.len() && s[from] != ':' {
        lemma_colon_found(s, from + 1);
    }
}

/// The fields that a text is split into, joined, are the text.
pub proof fn lemma_triplet_splits(s: Seq<char>)
    requires
        triplet(s) is Some,
    ensures
        s == joined(triplet(s).unwrap().0, triplet(s).unwrap().1, triplet(s).unwrap().2),
{
    lemma_colon_found(s, 0);
    lemma_colon_found(s, colon_at(s, 0) + 1);
}

/// An integer in front of `h` is a duration of that many hours: the
/// expression gives 3600 seconds for each, or is out of range when chrono
/// cannot hold so long a duration.
pub proof fn lemma_hours_form(number: Seq<char>)
    requires
        integer_field(number) is Some,
    ensures
        duration_of(number.push('h')) == in_range(span_of(integer_field(number).unwrap() * 3600)),
{
    assert(number.push('h').drop_last() =~= number);
}

/// An integer in front of `m` is a duration of that many minutes: the
/// expression gives 60 seconds for each, or is out of range when chrono
/// cannot hold so long a duration.
pub proof fn lemma_minutes_form(number: Seq<char>)
    requires
        integer_field(number) is Some,
    ensures
        duration_of(number.push('m')) == in_range(span_of(integer_field(number).unwrap() * 60)),
{
    assert(number.push('m').drop_last() =~= number);
}

/// Three integers between two colons are hours, minutes and seconds: the
/// expression gives their sum in seconds, or is out of range when chrono
/// cannot hold a part or a sum on the way.
pub proof fn lemma_triplet_form(h: Seq<char>, m: Seq<char>, sec: Seq<char>)
    requires
        integer_field(h) is Some,
        integer_field(m) is Some,
        integer_field(sec) is Some,
    ensures
        duration_of(joined(h, m, sec)) == in_range(
            triplet_span(
                integer_field(h).unwrap() as int,
                integer_field(m).unwrap() as int,
                integer_field(sec).unwrap() as int,
            ),
        ),
{
    lemma_integer_text(h);
    lemma_integer_text(m);
    lemma_integer_text(sec);
    lemma_triplet_joined(h, m, sec);
}

/// A text is turned down for its form exactly when it has none of the three
/// forms with an integer in every field; a text that has one is read, or is
/// out of range.
pub proof fn lemma_rejects_malformed(s: Seq<char>)
    ensures
        well_formed(s) <==> (duration_of(s) is Ok || duration_of(s) == Err::<i64, DurationError>(
            DurationError::OutOfRange,
        )),
{
    if s.len() > 0 && (s.last() == 'h' || s.last() == 'm') {
        if integer_field(s.drop_last()) is None {
            assert forall|h: Seq<char>, m: Seq<char>, sec: Seq<char>|
                s == #[trigger] joined(h, m, sec) && integer_field(h) is Some && integer_field(
                    m,
                ) is Some && integer_field(sec) is Some implies false by {
                lemma_integer_text(sec);
            }
        }
    } else if well_formed(s) {
        let (h, m, sec) = choose|h: Seq<char>, m: Seq<char>, sec: Seq<char>|
            s == #[trigger] joined(h, m, sec) && integer_field(h) is Some && integer_field(m) is Some
                && integer_field(sec) is Some;
        lemma_triplet_form(h, m, sec);
    } else if triplet(s) is Some {
        lemma_triplet_splits(s);
    }
}

/// Every duration that is read can be held: it is no longer than
/// [`MAX_SPAN_SECONDS`] either way.
pub proof fn lemma_duration_in_range(s: Seq<char>)
    ensures
        duration_of(s) matches Ok(seconds) ==> span_fits(seconds as int),
{
}

/// What is written in decimal is read back as the same number: the digits
/// of `n` are an integer, and its value is `n`.
pub proof fn lemma_decimal_reads_back(n: nat)
    ensures
        all_digits(decimal(n)),
        digits_value(decimal(n)) == n,
        integer_value(decimal(n)) == Some(n as int),
    decreases n,
{
    if n < 10 {
        assert(digits_value(decimal(n)) == n) by {
            reveal_with_fuel(digits_value, 2);
        }
    } else {
        lemma_decimal_reads_back(n / 10);
        lemma_digits_push(decimal(n / 10), digit_char(n % 10));
    }
}

} // verus!
