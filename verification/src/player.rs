//! Playing times as text.

use vstd::prelude::*;
use vstd::string::StringExecFns;

verus! {

/// The character of a decimal digit.
pub open spec fn digit(d: int) -> char {
    if d == 0 {
        '0'
    } else if d == 1 {
        '1'
    } else if d == 2 {
        '2'
    } else if d == 3 {
        '3'
    } else if d == 4 {
        '4'
    } else if d == 5 {
        '5'
    } else if d == 6 {
        '6'
    } else if d == 7 {
        '7'
    } else if d == 8 {
        '8'
    } else {
        '9'
    }
}

/// A number in decimal, without leading zeros.
pub open spec fn decimal(n: nat) -> Seq<char>
    decreases n,
{
    if n < 10 {
        seq![digit(n as int)]
    } else {
        decimal(n / 10).push(digit((n % 10) as int))
    }
}

/// A number in decimal, with a leading zero where it has one digit.
pub open spec fn two_digits(n: nat) -> Seq<char> {
    if n < 10 {
        seq!['0'] + decimal(n)
    } else {
        decimal(n)
    }
}

/// The seconds that a position stands for. A negative position counts from
/// the top of the unsigned 64-bit range, as a cast would have it.
pub open spec fn clock_seconds(position: i64) -> nat {
    if position >= 0 {
        position as nat
    } else {
        (position + 0x1_0000_0000_0000_0000) as nat
    }
}

/// A time in seconds as `hh:mm:ss`; the hours take more digits if need be.
pub open spec fn hms(seconds: nat) -> Seq<char> {
    two_digits((seconds / 60) / 60) + seq![':'] + two_digits((seconds / 60) % 60) + seq![':']
        + two_digits(seconds % 60)
}

/// A position and a duration as `[hh:mm:ss/hh:mm:ss]`.
pub open spec fn position_label(position: i64, duration: i64) -> Seq<char> {
    seq!['['] + hms(clock_seconds(position)) + seq!['/'] + hms(clock_seconds(duration)) + seq![']']
}

fn digit_text(d: u64) -> (text: &'static str)
    requires
        d < 10,
    ensures
        text@ == seq![digit(d as int)],
{
    proof {
        reveal_strlit("0");
        reveal_strlit("1");
        reveal_strlit("2");
        reveal_strlit("3");
        reveal_strlit("4");
        reveal_strlit("5");
        reveal_strlit("6");
        reveal_strlit("7");
        reveal_strlit("8");
        reveal_strlit("9");
    }
    let text = if d == 0 {
        "0"
    } else if d == 1 {
        "1"
    } else if d == 2 {
        "2"
    } else if d == 3 {
        "3"
    } else if d == 4 {
        "4"
    } else if d == 5 {
        "5"
    } else if d == 6 {
        "6"
    } else if d == 7 {
        "7"
    } else if d == 8 {
        "8"
    } else {
        "9"
    };
    assert(text@ =~= seq![digit(d as int)]);
    text
}

fn push_decimal(out: &mut String, n: u64)
    ensures
        final(out)@ == old(out)@ + decimal(n as nat),
    decreases n,
{
    if n >= 10 {
        push_decimal(out, n / 10);
    }
    out.append(digit_text(n % 10));
    assert(final(out)@ =~= old(out)@ + decimal(n as nat));
}

fn push_two_digits(out: &mut String, n: u64)
    ensures
        final(out)@ == old(out)@ + two_digits(n as nat),
{
    if n < 10 {
        out.append(digit_text(0));
    }
    push_decimal(out, n);
    assert(final(out)@ =~= old(out)@ + two_digits(n as nat));
}

fn push_hms(out: &mut String, position: i64)
    ensures
        final(out)@ == old(out)@ + hms(clock_seconds(position)),
{
    let seconds: u64 = if position >= 0 {
        position as u64
    } else {
        (position - i64::MIN) as u64 + 0x8000_0000_0000_0000u64
    };
    assert(seconds == clock_seconds(position));
    proof {
        reveal_strlit(":");
    }
    push_two_digits(out, (seconds / 60) / 60);
    out.append(":");
    push_two_digits(out, (seconds / 60) % 60);
    out.append(":");
    push_two_digits(out, seconds % 60);
    assert(final(out)@ =~= old(out)@ + hms(clock_seconds(position)));
}

/// A position in seconds as `hh:mm:ss`.
pub fn seconds_to_hms(position: i64) -> (text: String)
    ensures
        text@ == hms(clock_seconds(position)),
{
    let mut text = String::new();
    push_hms(&mut text, position);
    assert(text@ =~= hms(clock_seconds(position)));
    text
}

/// How far playing has come, as `[hh:mm:ss/hh:mm:ss]`: the position, then
/// the duration.
pub fn time_position(position: i64, duration: i64) -> (text: String)
    ensures
        text@ == position_label(position, duration),
{
    proof {
        reveal_strlit("[");
        reveal_strlit("/");
        reveal_strlit("]");
    }
    let mut text = String::new();
    text.append("[");
    push_hms(&mut text, position);
    text.append("/");
    push_hms(&mut text, duration);
    text.append("]");
    assert(text@ =~= position_label(position, duration));
    text
}

} // verus!
