use vstd::prelude::*;
use vstd::string::*;

use crate::time::Span;

verus! {

/// The largest value a `u64` holds, as a `u128`.
const U64_MAX: u128 = 18_446_744_073_709_551_615;

/// The whole seconds that a span of `nanos` nanoseconds shows when rounded up, after its
/// sub-millisecond part is dropped; capped at `u64::MAX`.
pub open spec fn rounded_seconds(nanos: nat) -> nat {
    let millis = nanos / 1_000_000;
    let secs = (millis + 999) / 1000;
    if secs <= u64::MAX {
        secs
    } else {
        u64::MAX as nat
    }
}

/// The character of a decimal digit.
pub open spec fn digit_char(d: nat) -> char {
    if d == 0 {
        '0'
    } else if d == 1 {
        '1'
    } else if d == 2 {
        '2'
    } else if d == 3 {
        '3'
    } else if d == 4 {
        '4'
    } else if d == 5 {
        '5'
    } else if d == 6 {
        '6'
    } else if d == 7 {
        '7'
    } else if d == 8 {
        '8'
    } else {
        '9'
    }
}

/// The decimal digits of `n`, with no leading zero.
pub open spec fn decimal(n: nat) -> Seq<char>
    decreases n,
{
    if n < 10 {
        seq![digit_char(n)]
    } else {
        decimal(n / 10) + seq![digit_char(n % 10)]
    }
}

/// The decimal digits of `n`, padded with a leading zero to at least two.
pub open spec fn two_digits(n: nat) -> Seq<char> {
    if n < 10 {
        seq!['0'] + decimal(n)
    } else {
        decimal(n)
    }
}

/// A count of seconds as minutes and seconds: `MM:SS`.
pub open spec fn clock_text(secs: nat) -> Seq<char> {
    two_digits(secs / 60) + seq![':'] + two_digits(secs % 60)
}

fn digit_str(d: u64) -> (r: &'static str)
    requires
        d < 10,
    ensures
        r@ == seq![digit_char(d as nat)],
{
    proof {
        reveal_strlit("0");
        reveal_strlit("1");
        reveal_strlit("2");
        reveal_strlit("3");
        reveal_strlit("4");
        reveal_strlit("5");
        reveal_strlit("6");
        reveal_strlit("7");
        reveal_strlit("8");
        reveal_strlit("9");
    }
    match d {
        0 => "0",
        1 => "1",
        2 => "2",
        3 => "3",
        4 => "4",
        5 => "5",
        6 => "6",
        7 => "7",
        8 => "8",
        _ => "9",
    }
}

fn push_decimal(text: &mut String, n: u64)
    ensures
        final(text)@ == old(text)@ + decimal(n as nat),
    decreases n,
{
    if n >= 10 {
        push_decimal(text, n / 10);
    }
    text.append(digit_str(n % 10));
    assert(final(text)@ =~= old(text)@ + decimal(n as nat));
}

fn push_two_digits(text: &mut String, n: u64)
    ensures
        final(text)@ == old(text)@ + two_digits(n as nat),
{
    if n < 10 {
        text.append(digit_str(0));
    }
    push_decimal(text, n);
    assert(final(text)@ =~= old(text)@ + two_digits(n as nat));
}

/// The time a span shows on a countdown, as `MM:SS`, with seconds rounded up.
pub fn format_duration(duration: &Span) -> (r: String)
    ensures
        r@ == clock_text(rounded_seconds(duration@)),
{
    let millis = duration.as_nanos() / 1_000_000;
    let secs = (millis + 999) / 1000;
    let rounded: u64 = if secs <= U64_MAX {
        secs as u64
    } else {
        u64::MAX
    };
    let mut text = String::new();
    push_two_digits(&mut text, rounded / 60);
    proof {
        reveal_strlit(":");
    }
    text.append(":");
    push_two_digits(&mut text, rounded % 60);
    assert(text@ =~= clock_text(rounded as nat));
    text
}

} // verus!
