//! Decimal text: the digits of a number and the `HH:MM:SS` tape.

use vstd::prelude::*;
use vstd::string::*;

verus! {

/// The character that writes the decimal digit `d`.
pub open spec fn digit_char(d: nat) -> char {
    (('0' as nat) + d) as char
}

/// Whether `c` is a decimal digit.
pub open spec fn is_digit(c: char) -> bool {
    '0' <= c && c <= '9'
}

/// The number that the digit `c` writes.
pub open spec fn digit_value(c: char) -> nat {
    (c as int - '0' as int) as nat
}

/// The decimal digits of `n`, most significant first; zero is written `0`.
pub open spec fn decimal(n: nat) -> Seq<char>
    decreases n,
{
    if n < 10 {
        seq![digit_char(n)]
    } else {
        decimal(n / 10).push(digit_char(n % 10))
    }
}

/// `n` in decimal, padded on the left with a zero to at least two digits.
pub open spec fn two_digits(n: nat) -> Seq<char> {
    if n < 10 {
        seq!['0', digit_char(n)]
    } else {
        decimal(n)
    }
}

/// A number of seconds as hours, minutes and seconds, each padded to two
/// digits and joined by colons. Hours are not wrapped at a day.
pub open spec fn hms_text(total: nat) -> Seq<char> {
    two_digits(total / 3600) + seq![':'] + two_digits((total % 3600) / 60) + seq![':']
        + two_digits(total % 60)
}

/// The text of a countdown with `remaining` seconds to go: the magnitude as
/// `HH:MM:SS`, behind a minus sign once the countdown has run past zero.
pub open spec fn countdown_text(remaining: int) -> Seq<char> {
    if remaining < 0 {
        seq!['-'] + hms_text((-remaining) as nat)
    } else {
        hms_text(remaining as nat)
    }
}

/// A number below a hundred is written with exactly two digits: its tens and
/// its units.
pub proof fn lemma_two_digits(n: nat)
    requires
        n < 100,
    ensures
        two_digits(n) == seq![digit_char(n / 10), digit_char(n % 10)],
{
    if n >= 10 {
        assert(decimal(n / 10) == seq![digit_char(n / 10)]);
    }
}

/// A number is written with digits only, at least one, and with no zero in
/// front of a number of two digits or more.
pub proof fn lemma_decimal_digits(n: nat)
    ensures
        decimal(n).len() >= 1,
        n >= 10 ==> decimal(n).len() >= 2 && decimal(n)[0] != '0',
        forall|i: int| 0 <= i < decimal(n).len() ==> is_digit(#[trigger] decimal(n)[i]),
    decreases n,
{
    if n >= 10 {
        lemma_decimal_digits(n / 10);
    }
}

/// The shape of the tape: the hours with at least two digits, then a colon
/// and the minutes, a colon and the seconds, both with exactly two digits.
/// Nothing but digits and the two colons is written.
pub proof fn lemma_hms_shape(total: nat)
    ensures
        hms_text(total) == two_digits(total / 3600) + seq![
            ':',
            digit_char(((total % 3600) / 60) / 10),
            digit_char(((total % 3600) / 60) % 10),
            ':',
            digit_char((total % 60) / 10),
            digit_char((total % 60) % 10),
        ],
        two_digits(total / 3600).len() >= 2,
        hms_text(total).len() == two_digits(total / 3600).len() + 6,
        forall|i: int|
            0 <= i < hms_text(total).len() ==> is_digit(#[trigger] hms_text(total)[i]) || hms_text(
                total,
            )[i] == ':',
{
    lemma_two_digits((total % 3600) / 60);
    lemma_two_digits(total % 60);
    lemma_decimal_digits(total / 3600);
}

/// A countdown at or above zero is written without a sign; one below zero is
/// written as its magnitude behind a minus sign.
pub proof fn lemma_countdown_sign(remaining: int)
    ensures
        remaining >= 0 ==> countdown_text(remaining) == hms_text(remaining as nat) && is_digit(
            countdown_text(remaining)[0],
        ),
        remaining < 0 ==> countdown_text(remaining) == seq!['-'] + countdown_text(-remaining)
            && countdown_text(remaining)[0] == '-',
{
    if remaining >= 0 {
        let total = remaining as nat;
        lemma_hms_shape(total);
        lemma_decimal_digits(total / 3600);
    }
}

/// Below a hundred hours the countdown is exactly `HH:MM:SS`: eight
/// characters, every number padded with a zero to two digits.
pub proof fn lemma_countdown_below_a_hundred_hours(remaining: int)
    requires
        0 <= remaining < 360_000,
    ensures
        countdown_text(remaining) == seq![
            digit_char((remaining / 3600) as nat / 10),
            digit_char((remaining / 3600) as nat % 10),
            ':',
            digit_char(((remaining % 3600) / 60) as nat / 10),
            digit_char(((remaining % 3600) / 60) as nat % 10),
            ':',
            digit_char((remaining % 60) as nat / 10),
            digit_char((remaining % 60) as nat % 10),
        ],
{
    let total = remaining as nat;
    lemma_hms_shape(total);
    lemma_two_digits(total / 3600);
}

/// The one-character string that writes the digit `d`.
fn digit_str(d: u8) -> (s: &'static str)
    requires
        d < 10,
    ensures
        s@ == seq![digit_char(d as nat)],
{
    proof {
        reveal_strlit("0");
        reveal_strlit("1");
        reveal_strlit("2");
        reveal_strlit("3");
        reveal_strlit("4");
        reveal_strlit("5");
        reveal_strlit("6");
        reveal_strlit("7");
        reveal_strlit("8");
        reveal_strlit("9");
    }
    let s = match d {
        0 => "0",
        1 => "1",
        2 => "2",
        3 => "3",
        4 => "4",
        5 => "5",
        6 => "6",
        7 => "7",
        8 => "8",
        _ => "9",
    };
    s
}

/// Appends the decimal digits of `n` to `out`.
pub fn push_decimal(out: &mut String, n: u128)
    ensures
        final(out)@ == old(out)@ + decimal(n as nat),
    decreases n,
{
    if n >= 10 {
        push_decimal(out, n / 10);
    }
    out.append(digit_str((n % 10) as u8));
}

/// Appends `n` to `out` with at least two digits.
pub fn push_two_digits(out: &mut String, n: u128)
    ensures
        final(out)@ == old(out)@ + two_digits(n as nat),
{
    if n < 10 {
        out.append(digit_str(0));
        out.append(digit_str(n as u8));
    } else {
        push_decimal(out, n);
    }
}

/// Appends `total` seconds to `out` as `HH:MM:SS`.
pub fn push_hms(out: &mut String, total: u128)
    ensures
        final(out)@ == old(out)@ + hms_text(total as nat),
{
    proof {
        reveal_strlit(":");
    }
    push_two_digits(out, total / 3600);
    out.append(":");
    push_two_digits(out, (total % 3600) / 60);
    out.append(":");
    push_two_digits(out, total % 60);
}

/// Writes the countdown text for `remaining` seconds: `HH:MM:SS` of the
/// magnitude, with a leading `-` when `remaining` is negative.
pub fn format_countdown(remaining: i64) -> (text: String)
    ensures
        text@ == countdown_text(remaining as int),
{
    proof {
        reveal_strlit("-");
    }
    let mut text = String::new();
    if remaining < 0 {
        text.append("-");
        let magnitude: i128 = -(remaining as i128);
        push_hms(&mut text, magnitude as u128);
    } else {
        push_hms(&mut text, remaining as u128);
    }
    text
}

} // verus!
