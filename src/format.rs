//! Temperature conversion and the `HH:MM:SS` rendering of durations.
use vstd::prelude::*;

verus! {

/// A Celsius temperature in hundredths of a degree.
pub type CentiCelsius = i32;

/// A Fahrenheit temperature in thousandths of a degree.
pub type MilliFahrenheit = i64;

/// `f = c * 9/5 + 32`, with `c` in hundredths and `f` in thousandths of a degree.
pub open spec fn fahrenheit_of(c: int) -> int {
    18 * c + 32000
}

/// Converts a Celsius reading to Fahrenheit, exactly.
pub fn c_to_f(celsius: CentiCelsius) -> (r: MilliFahrenheit)
    ensures
        r == fahrenheit_of(celsius as int),
{
    18 * (celsius as i64) + 32000
}

/// The character of a decimal digit.
pub open spec fn digit_char(d: nat) -> char {
    if d == 0 {
        '0'
    } else if d == 1 {
        '1'
    } else if d == 2 {
        '2'
    } else if d == 3 {
        '3'
    } else if d == 4 {
        '4'
    } else if d == 5 {
        '5'
    } else if d == 6 {
        '6'
    } else if d == 7 {
        '7'
    } else if d == 8 {
        '8'
    } else {
        '9'
    }
}

/// The decimal digits of `n`, most significant first, without leading zeros.
pub open spec fn decimal(n: nat) -> Seq<char>
    decreases n,
{
    if n < 10 {
        seq![digit_char(n)]
    } else {
        decimal(n / 10).push(digit_char(n % 10))
    }
}

/// `n` in decimal, zero-padded to at least two digits.
pub open spec fn padded(n: nat) -> Seq<char> {
    if n < 10 {
        seq!['0', digit_char(n)]
    } else {
        decimal(n)
    }
}

/// The text shown for a duration of `t` seconds: `-1` means the duration
/// cannot be estimated yet; other negative values count as zero.
pub open spec fn duration_text(t: int) -> Seq<char> {
    if t == -1 {
        "Estimating..."@
    } else if t <= 0 {
        "00:00:00"@
    } else {
        padded((t / 3600) as nat) + seq![':'] + padded(((t / 60) % 60) as nat) + seq![':']
            + padded((t % 60) as nat)
    }
}

fn digit_str(d: u64) -> (r: &'static str)
    requires
        d < 10,
    ensures
        r@ == seq![digit_char(d as nat)],
{
    proof {
        reveal_strlit("0");
        reveal_strlit("1");
        reveal_strlit("2");
        reveal_strlit("3");
        reveal_strlit("4");
        reveal_strlit("5");
        reveal_strlit("6");
        reveal_strlit("7");
        reveal_strlit("8");
        reveal_strlit("9");
    }
    if d == 0 {
        "0"
    } else if d == 1 {
        "1"
    } else if d == 2 {
        "2"
    } else if d == 3 {
        "3"
    } else if d == 4 {
        "4"
    } else if d == 5 {
        "5"
    } else if d == 6 {
        "6"
    } else if d == 7 {
        "7"
    } else if d == 8 {
        "8"
    } else {
        "9"
    }
}

fn push_decimal(s: &mut String, n: u64)
    ensures
        final(s)@ == old(s)@ + decimal(n as nat),
    decreases n,
{
    if n >= 10 {
        push_decimal(s, n / 10);
    }
    s.append(digit_str(n % 10));
    assert(final(s)@ =~= old(s)@ + decimal(n as nat));
}

fn push_padded(s: &mut String, n: u64)
    ensures
        final(s)@ == old(s)@ + padded(n as nat),
{
    if n < 10 {
        s.append(digit_str(0));
    }
    push_decimal(s, n);
    assert(final(s)@ =~= old(s)@ + padded(n as nat));
}

/// Renders a duration in seconds as `HH:MM:SS`; hours take as many digits as
/// they need. `-1` renders as `Estimating...`.
pub fn display_time(time: i32) -> (r: String)
    ensures
        r@ == duration_text(time as int),
{
    if time == -1 {
        return String::from_str("Estimating...");
    }
    if time <= 0 {
        return String::from_str("00:00:00");
    }
    let secs: u64 = time as u64;
    let mut s = String::new();
    push_padded(&mut s, secs / 3600);
    proof {
        reveal_strlit(":");
    }
    s.append(":");
    push_padded(&mut s, (secs / 60) % 60);
    s.append(":");
    push_padded(&mut s, secs % 60);
    assert(s@ =~= duration_text(time as int));
    s
}

} // verus!
