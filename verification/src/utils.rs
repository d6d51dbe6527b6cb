//! Text helpers: decimal numbers and the human-readable form of a duration.

use std::time::Duration;
use vstd::prelude::*;

verus! {

/// `String::push` appends one character to the end of the string.
pub assume_specification[ String::push ](s: &mut String, c: char)
    ensures
        final(s)@ == old(s)@.push(c),
;

/// The whole seconds that a `Duration` holds, as `Duration::as_secs` reports
/// them.
pub uninterp spec fn duration_secs(d: Duration) -> u64;

/// The part of a `Duration` below one second, in whole milliseconds, as
/// `Duration::subsec_millis` reports it.
pub uninterp spec fn duration_subsec_millis(d: Duration) -> u32;

/// `Duration::as_secs` returns the number of whole seconds in the duration.
pub assume_specification[ Duration::as_secs ](d: &Duration) -> (secs: u64)
    ensures
        secs == duration_secs(*d),
;

/// `Duration::subsec_millis` returns the fractional part of the duration in
/// whole milliseconds, which is always below one thousand.
pub assume_specification[ Duration::subsec_millis ](d: &Duration) -> (millis: u32)
    ensures
        millis == duration_subsec_millis(*d),
        millis < 1000,
;

/// The character that stands for the digit `d`.
pub open spec fn digit_char(d: nat) -> char
    recommends
        d < 10,
{
    if d == 0 {
        '0'
    } else if d == 1 {
        '1'
    } else if d == 2 {
        '2'
    } else if d == 3 {
        '3'
    } else if d == 4 {
        '4'
    } else if d == 5 {
        '5'
    } else if d == 6 {
        '6'
    } else if d == 7 {
        '7'
    } else if d == 8 {
        '8'
    } else {
        '9'
    }
}

/// The decimal digits of `n`, most significant first, without leading zeros
/// (a single `0` for zero).
pub open spec fn decimal(n: nat) -> Seq<char>
    decreases n,
{
    if n < 10 {
        seq![digit_char(n)]
    } else {
        decimal(n / 10).push(digit_char(n % 10))
    }
}

/// `count` copies of `fill`.
pub open spec fn repeated(fill: char, count: nat) -> Seq<char> {
    Seq::new(count, |i: int| fill)
}

/// The decimal digits of `n`, preceded by as many copies of `fill` as it takes
/// to reach `width` characters; longer numbers are left as they are.
pub open spec fn padded(n: nat, width: nat, fill: char) -> Seq<char> {
    if decimal(n).len() >= width {
        decimal(n)
    } else {
        repeated(fill, (width - decimal(n).len()) as nat) + decimal(n)
    }
}

/// A duration of `total_seconds` seconds and `millis` milliseconds, written
/// with the largest units it needs: `350ms`, `5s`, `5.040s`, `2m 5s`,
/// `1h 0m 5.500s`. Hours and minutes appear only from the first unit that is
/// not zero; milliseconds follow the seconds as three decimals unless they are
/// zero; below one second the milliseconds stand alone.
pub open spec fn duration_text(total_seconds: nat, millis: nat) -> Seq<char> {
    let hours = total_seconds / 3600;
    let minutes = (total_seconds % 3600) / 60;
    let seconds = total_seconds % 60;
    if total_seconds == 0 {
        decimal(millis) + seq!['m', 's']
    } else {
        let h = if hours > 0 {
            decimal(hours) + seq!['h', ' ']
        } else {
            Seq::empty()
        };
        let m = if hours > 0 || minutes > 0 {
            decimal(minutes) + seq!['m', ' ']
        } else {
            Seq::empty()
        };
        let fraction = if millis > 0 {
            seq!['.'] + padded(millis, 3, '0')
        } else {
            Seq::empty()
        };
        h + m + decimal(seconds) + fraction + seq!['s']
    }
}

fn digit(d: u64) -> (c: char)
    requires
        d < 10,
    ensures
        c == digit_char(d as nat),
{
    if d == 0 {
        '0'
    } else if d == 1 {
        '1'
    } else if d == 2 {
        '2'
    } else if d == 3 {
        '3'
    } else if d == 4 {
        '4'
    } else if d == 5 {
        '5'
    } else if d == 6 {
        '6'
    } else if d == 7 {
        '7'
    } else if d == 8 {
        '8'
    } else {
        '9'
    }
}

/// Appends the decimal digits of `n` to `out`.
pub fn push_decimal(out: &mut String, n: u64)
    ensures
        final(out)@ == old(out)@ + decimal(n as nat),
    decreases n,
{
    if n >= 10 {
        push_decimal(out, n / 10);
    }
    out.push(digit(n % 10));
}

/// The number of decimal digits of `n`.
pub fn decimal_len(n: u64) -> (len: u64)
    ensures
        len == decimal(n as nat).len(),
        1 <= len <= n + 1,
    decreases n,
{
    if n < 10 {
        1
    } else {
        decimal_len(n / 10) + 1
    }
}

/// Appends `n` in decimal to `out`, filled on the left with `fill` up to
/// `width` characters.
pub fn push_padded(out: &mut String, n: u64, width: usize, fill: char)
    ensures
        final(out)@ == old(out)@ + padded(n as nat, width as nat, fill),
{
    let len: u64 = decimal_len(n);
    let goal: u64 = width as u64;
    let mut i: u64 = len;
    while i < goal
        invariant
            len <= i,
            i <= goal || i == len,
            out@ == old(out)@ + repeated(fill, (i - len) as nat),
        decreases goal - i,
    {
        out.push(fill);
        i = i + 1;
    }
    push_decimal(out, n);
}

/// Writes a duration given as whole seconds and milliseconds.
pub fn format_duration_parts(total_seconds: u64, millis: u32) -> (text: String)
    ensures
        text@ == duration_text(total_seconds as nat, millis as nat),
{
    let hours: u64 = total_seconds / 3600;
    let minutes: u64 = (total_seconds % 3600) / 60;
    let seconds: u64 = total_seconds % 60;
    let mut text = String::new();
    if total_seconds == 0 {
        push_decimal(&mut text, millis as u64);
        text.push('m');
        text.push('s');
        return text;
    }
    if hours > 0 {
        push_decimal(&mut text, hours);
        text.push('h');
        text.push(' ');
    }
    if hours > 0 || minutes > 0 {
        push_decimal(&mut text, minutes);
        text.push('m');
        text.push(' ');
    }
    push_decimal(&mut text, seconds);
    if millis > 0 {
        text.push('.');
        push_padded(&mut text, millis as u64, 3, '0');
    }
    text.push('s');
    text
}

/// Writes a duration in the form that `duration_text` describes, from the
/// whole seconds and the milliseconds that the `Duration` reports.
pub fn format_duration(duration: Duration) -> (text: String)
    ensures
        text@ == duration_text(
            duration_secs(duration) as nat,
            duration_subsec_millis(duration) as nat,
        ),
{
    let total_seconds: u64 = duration.as_secs();
    let millis: u32 = duration.subsec_millis();
    format_duration_parts(total_seconds, millis)
}

} // verus!
