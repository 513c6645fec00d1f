//! Elapsed times in words, for progress reports.

use vstd::prelude::*;

verus! {

/// Nanoseconds in one second.
pub const NANOS_PER_SEC: u128 = 1_000_000_000;

/// The text of one decimal digit.
pub open spec fn digit_text(d: nat) -> Seq<char> {
    if d == 0 {
        "0"@
    } else if d == 1 {
        "1"@
    } else if d == 2 {
        "2"@
    } else if d == 3 {
        "3"@
    } else if d == 4 {
        "4"@
    } else if d == 5 {
        "5"@
    } else if d == 6 {
        "6"@
    } else if d == 7 {
        "7"@
    } else if d == 8 {
        "8"@
    } else {
        "9"@
    }
}

/// A number in decimal, without leading zeros.
pub open spec fn decimal_text(n: nat) -> Seq<char>
    decreases n,
{
    if n < 10 {
        digit_text(n)
    } else {
        decimal_text(n / 10) + digit_text(n % 10)
    }
}

/// A count and its unit, the unit in the singular for a count of one.
pub open spec fn counted_text(n: nat, singular: Seq<char>, plural: Seq<char>) -> Seq<char> {
    decimal_text(n) + " "@ + if n == 1 {
        singular
    } else {
        plural
    }
}

/// A time below one second: in nanoseconds below a microsecond, in whole
/// microseconds below five milliseconds, in whole milliseconds from there.
pub open spec fn sub_second_text(nanos: nat) -> Seq<char> {
    if nanos == 0 {
        "no time (0)"@
    } else if nanos < 1_000 {
        counted_text(nanos, "nanosecond"@, "nanoseconds"@)
    } else if nanos < 5_000_000 {
        counted_text(nanos / 1_000, "microsecond"@, "microseconds"@)
    } else {
        counted_text(nanos / 1_000_000, "millisecond"@, "milliseconds"@)
    }
}

/// A time in words. Above a minute: whole minutes and seconds. From one
/// second to a minute: whole seconds, then the rest as a time below one
/// second, if there is a rest.
pub open spec fn duration_text(nanos: nat) -> Seq<char> {
    let secs = nanos / (NANOS_PER_SEC as nat);
    let rest = nanos % (NANOS_PER_SEC as nat);
    if nanos < NANOS_PER_SEC {
        sub_second_text(nanos)
    } else if nanos > 60 * NANOS_PER_SEC {
        counted_text(secs / 60, "minute"@, "minutes"@) + " "@ + counted_text(
            secs % 60,
            "second"@,
            "seconds"@,
        )
    } else if rest == 0 {
        counted_text(secs, "second"@, "seconds"@)
    } else {
        counted_text(secs, "second"@, "seconds"@) + " "@ + sub_second_text(rest)
    }
}

/// The literal of a decimal digit.
fn digit_str(d: u128) -> (text: &'static str)
    requires
        d < 10,
    ensures
        text@ == digit_text(d as nat),
{
    if d == 0 {
        "0"
    } else if d == 1 {
        "1"
    } else if d == 2 {
        "2"
    } else if d == 3 {
        "3"
    } else if d == 4 {
        "4"
    } else if d == 5 {
        "5"
    } else if d == 6 {
        "6"
    } else if d == 7 {
        "7"
    } else if d == 8 {
        "8"
    } else {
        "9"
    }
}

/// Appends `n` in decimal to `text`.
fn push_decimal(text: &mut String, n: u128)
    ensures
        final(text)@ == old(text)@ + decimal_text(n as nat),
    decreases n,
{
    if n >= 10 {
        push_decimal(text, n / 10);
    }
    text.append(digit_str(n % 10));
}

/// A count and its unit as text.
fn counted(n: u128, singular: &str, plural: &str) -> (text: String)
    ensures
        text@ == counted_text(n as nat, singular@, plural@),
{
    let mut text = String::new();
    push_decimal(&mut text, n);
    text.append(" ");
    if n == 1 {
        text.append(singular);
    } else {
        text.append(plural);
    }
    text
}

/// Words for a time below one second.
fn format_sub_second(nanos: u128) -> (text: String)
    requires
        nanos < NANOS_PER_SEC,
    ensures
        text@ == sub_second_text(nanos as nat),
{
    if nanos == 0 {
        String::from_str("no time (0)")
    } else if nanos < 1_000 {
        counted(nanos, "nanosecond", "nanoseconds")
    } else if nanos < 5_000_000 {
        counted(nanos / 1_000, "microsecond", "microseconds")
    } else {
        counted(nanos / 1_000_000, "millisecond", "milliseconds")
    }
}

/// Words for an elapsed time, given in nanoseconds.
pub fn format_duration(nanos: u128) -> (text: String)
    ensures
        text@ == duration_text(nanos as nat),
{
    if nanos < NANOS_PER_SEC {
        format_sub_second(nanos)
    } else if nanos > 60 * NANOS_PER_SEC {
        let secs: u128 = nanos / NANOS_PER_SEC;
        let mut text = counted(secs / 60, "minute", "minutes");
        text.append(" ");
        let seconds = counted(secs % 60, "second", "seconds");
        text.append(seconds.as_str());
        text
    } else {
        let mut text = counted(nanos / NANOS_PER_SEC, "second", "seconds");
        let rest: u128 = nanos % NANOS_PER_SEC;
        if rest != 0 {
            text.append(" ");
            let tail = format_sub_second(rest);
            text.append(tail.as_str());
        }
        text
    }
}

} // verus!
