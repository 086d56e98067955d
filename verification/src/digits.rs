//! Decimal rendering of small non-negative integers and of UTC offsets.
//!
//! Offsets are rendered in two fixed textual forms: `±HH:MM` with
//! zero-padded hours for a zone's UTC offset, and `±H:MM` with unpadded
//! hours for the difference between two zones' offsets.

use vstd::prelude::*;
use vstd::string::StringExecFns;

verus! {

/// The character for a single decimal digit value.
pub open spec fn digit_char(d: int) -> char {
    if d == 0 {
        '0'
    } else if d == 1 {
        '1'
    } else if d == 2 {
        '2'
    } else if d == 3 {
        '3'
    } else if d == 4 {
        '4'
    } else if d == 5 {
        '5'
    } else if d == 6 {
        '6'
    } else if d == 7 {
        '7'
    } else if d == 8 {
        '8'
    } else {
        '9'
    }
}

/// Decimal rendering of a non-negative integer, most significant digit
/// first, with no leading zeros (a lone zero renders as `0`).
pub open spec fn spec_dec(n: int) -> Seq<char>
    decreases n,
{
    if n <= 9 {
        seq![digit_char(n)]
    } else {
        spec_dec(n / 10) + seq![digit_char(n % 10)]
    }
}

/// Decimal rendering zero-padded on the left to at least two digits.
pub open spec fn spec_pad2(n: int) -> Seq<char> {
    if 0 <= n <= 9 {
        seq!['0'] + spec_dec(n)
    } else {
        spec_dec(n)
    }
}

/// Decimal rendering zero-padded on the left to at least four digits.
pub open spec fn spec_pad4(n: int) -> Seq<char> {
    if 0 <= n <= 9 {
        seq!['0', '0', '0'] + spec_dec(n)
    } else if 10 <= n <= 99 {
        seq!['0', '0'] + spec_dec(n)
    } else if 100 <= n <= 999 {
        seq!['0'] + spec_dec(n)
    } else {
        spec_dec(n)
    }
}

/// A zone's UTC offset in seconds rendered as `±HH:MM`: sign always
/// present, hours and minutes zero-padded to two digits, seconds below a
/// whole minute discarded.
pub open spec fn spec_format_utc_offset(secs: int) -> Seq<char> {
    let sign = if secs < 0 {
        seq!['-']
    } else {
        seq!['+']
    };
    let a = if secs < 0 {
        -secs
    } else {
        secs
    };
    sign + spec_pad2(a / 3600) + seq![':'] + spec_pad2((a % 3600) / 60)
}

/// An offset difference in seconds rendered as `±H:MM`: sign always
/// present, hours unpadded, minutes zero-padded to two digits.
pub open spec fn spec_format_offset_diff(secs: int) -> Seq<char> {
    let sign = if secs < 0 {
        seq!['-']
    } else {
        seq!['+']
    };
    let a = if secs < 0 {
        -secs
    } else {
        secs
    };
    sign + spec_dec(a / 3600) + seq![':'] + spec_pad2((a % 3600) / 60)
}

/// The one-character string for a decimal digit value.
fn digit_str(d: u32) -> (r: &'static str)
    requires
        d < 10,
    ensures
        r@ =~= seq![digit_char(d as int)],
{
    proof {
        reveal_strlit("0");
        reveal_strlit("1");
        reveal_strlit("2");
        reveal_strlit("3");
        reveal_strlit("4");
        reveal_strlit("5");
        reveal_strlit("6");
        reveal_strlit("7");
        reveal_strlit("8");
        reveal_strlit("9");
    }
    match d {
        0 => "0",
        1 => "1",
        2 => "2",
        3 => "3",
        4 => "4",
        5 => "5",
        6 => "6",
        7 => "7",
        8 => "8",
        _ => "9",
    }
}

/// Appends the decimal rendering of `n` to `s`.
pub(crate) fn push_dec(s: &mut String, n: u32)
    ensures
        final(s)@ == old(s)@ + spec_dec(n as int),
    decreases n,
{
    if n >= 10 {
        push_dec(s, n / 10);
    }
    s.append(digit_str(n % 10));
    assert(s@ =~= old(s)@ + spec_dec(n as int));
}

/// Appends the decimal rendering of `n` to `s`, zero-padded to at least
/// two digits.
pub(crate) fn push_pad2(s: &mut String, n: u32)
    ensures
        final(s)@ == old(s)@ + spec_pad2(n as int),
{
    if n < 10 {
        proof {
            reveal_strlit("0");
        }
        s.append("0");
    }
    push_dec(s, n);
    assert(s@ =~= old(s)@ + spec_pad2(n as int));
}

/// Appends the decimal rendering of `n` to `s`, zero-padded to at least
/// four digits.
pub(crate) fn push_pad4(s: &mut String, n: u32)
    ensures
        final(s)@ == old(s)@ + spec_pad4(n as int),
{
    proof {
        reveal_strlit("0");
        reveal_strlit("00");
        reveal_strlit("000");
    }
    if n < 10 {
        s.append("000");
    } else if n < 100 {
        s.append("00");
    } else if n < 1000 {
        s.append("0");
    }
    push_dec(s, n);
    assert(s@ =~= old(s)@ + spec_pad4(n as int));
}

/// The magnitude of an offset in seconds, as a `u32`.
fn abs_seconds(secs: i32) -> (r: u32)
    ensures
        r == if secs < 0 {
            -(secs as int)
        } else {
            secs as int
        },
{
    if secs < 0 {
        (-(secs as i64)) as u32
    } else {
        secs as u32
    }
}

/// Renders a UTC offset in seconds as `±HH:MM` (zero renders `+00:00`;
/// fractional-hour offsets such as `+05:45` are preserved).
pub fn format_utc_offset(secs: i32) -> (r: String)
    ensures
        r@ == spec_format_utc_offset(secs as int),
{
    proof {
        reveal_strlit("-");
        reveal_strlit("+");
        reveal_strlit(":");
    }
    let mut s = String::new();
    if secs < 0 {
        s.append("-");
    } else {
        s.append("+");
    }
    let a = abs_seconds(secs);
    push_pad2(&mut s, a / 3600);
    s.append(":");
    push_pad2(&mut s, (a % 3600) / 60);
    assert(s@ =~= spec_format_utc_offset(secs as int));
    s
}

/// Renders an offset difference in seconds as `±H:MM` (zero renders
/// `+0:00`, hours are not zero-padded).
pub fn format_offset_diff(secs: i32) -> (r: String)
    ensures
        r@ == spec_format_offset_diff(secs as int),
{
    proof {
        reveal_strlit("-");
        reveal_strlit("+");
        reveal_strlit(":");
    }
    let mut s = String::new();
    if secs < 0 {
        s.append("-");
    } else {
        s.append("+");
    }
    let a = abs_seconds(secs);
    push_dec(&mut s, a / 3600);
    s.append(":");
    push_pad2(&mut s, (a % 3600) / 60);
    assert(s@ =~= spec_format_offset_diff(secs as int));
    s
}

} // verus!
