use vstd::prelude::*;
use vstd::string::StringExecFns;

verus! {

/// The number of microseconds in one second.
pub const MICROS_PER_SECOND: i128 = 1_000_000;

/// The decimal digit character for `d < 10`.
pub open spec fn digit_char(d: nat) -> char {
    if d == 0 {
        '0'
    } else if d == 1 {
        '1'
    } else if d == 2 {
        '2'
    } else if d == 3 {
        '3'
    } else if d == 4 {
        '4'
    } else if d == 5 {
        '5'
    } else if d == 6 {
        '6'
    } else if d == 7 {
        '7'
    } else if d == 8 {
        '8'
    } else {
        '9'
    }
}

/// `n` written in decimal, without leading zeros.
pub open spec fn decimal(n: nat) -> Seq<char>
    decreases n,
{
    if n < 10 {
        seq![digit_char(n)]
    } else {
        decimal(n / 10) + seq![digit_char(n % 10)]
    }
}

/// `n < 100` written with exactly two digits.
pub open spec fn two_digits(n: nat) -> Seq<char> {
    seq![digit_char(n / 10), digit_char(n % 10)]
}

/// A non-negative number of seconds shown as minutes, a colon and two digits of
/// seconds. The minutes are not wrapped at an hour.
pub open spec fn clock_digits(secs: nat) -> Seq<char> {
    decimal(secs / 60) + seq![':'] + two_digits(secs % 60)
}

/// A number of seconds shown as `M:SS`, with a leading minus sign when it is negative.
pub open spec fn clock_text(secs: int) -> Seq<char> {
    if secs < 0 {
        seq!['-'] + clock_digits((-secs) as nat)
    } else {
        clock_digits(secs as nat)
    }
}

/// The whole seconds in `micros`, rounded toward zero.
pub open spec fn whole_seconds(micros: int) -> int {
    if micros >= 0 {
        micros / (MICROS_PER_SECOND as int)
    } else {
        -((-micros) / (MICROS_PER_SECOND as int))
    }
}

/// The one-character string of the digit `d`.
fn digit_str(d: u128) -> (r: &'static str)
    requires
        d < 10,
    ensures
        r@ == seq![digit_char(d as nat)],
{
    proof {
        reveal_strlit("0");
        reveal_strlit("1");
        reveal_strlit("2");
        reveal_strlit("3");
        reveal_strlit("4");
        reveal_strlit("5");
        reveal_strlit("6");
        reveal_strlit("7");
        reveal_strlit("8");
        reveal_strlit("9");
    }
    if d == 0 {
        "0"
    } else if d == 1 {
        "1"
    } else if d == 2 {
        "2"
    } else if d == 3 {
        "3"
    } else if d == 4 {
        "4"
    } else if d == 5 {
        "5"
    } else if d == 6 {
        "6"
    } else if d == 7 {
        "7"
    } else if d == 8 {
        "8"
    } else {
        "9"
    }
}

/// Appends `n` in decimal to `s`.
fn append_decimal(s: &mut String, n: u128)
    ensures
        final(s)@ == old(s)@ + decimal(n as nat),
    decreases n,
{
    if n >= 10 {
        append_decimal(s, n / 10);
        s.append(digit_str(n % 10));
        assert(final(s)@ =~= old(s)@ + decimal(n as nat));
    } else {
        s.append(digit_str(n));
    }
}

/// Shows a number of seconds as `M:SS`: minutes by integer division, seconds
/// modulo 60 padded to two digits, and a leading `-` for a negative count.
pub fn format_clock(secs: i128) -> (r: String)
    ensures
        r@ == clock_text(secs as int),
{
    let mut s = String::new();
    let mag: u128 = if secs < 0 {
        proof {
            reveal_strlit("-");
        }
        s.append("-");
        ((-(secs + 1)) as u128) + 1
    } else {
        secs as u128
    };
    append_decimal(&mut s, mag / 60);
    proof {
        reveal_strlit(":");
    }
    s.append(":");
    let rem = mag % 60;
    s.append(digit_str(rem / 10));
    s.append(digit_str(rem % 10));
    assert(s@ =~= clock_text(secs as int));
    s
}

/// The whole seconds in a count of microseconds, rounded toward zero.
pub fn micros_to_seconds(micros: i128) -> (r: i128)
    ensures
        r == whole_seconds(micros as int),
{
    if micros >= 0 {
        micros / MICROS_PER_SECOND
    } else {
        let mag: u128 = ((-(micros + 1)) as u128) + 1;
        let q: u128 = mag / (MICROS_PER_SECOND as u128);
        -(q as i128)
    }
}

} // verus!
