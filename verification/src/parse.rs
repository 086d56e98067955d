//! Strict parsing of `HH:MM` 24-hour wall-clock times.
//!
//! Input is trimmed of surrounding whitespace, then accepted exactly when
//! it is five characters, `:` at index two, both fields decimal, hour in
//! `0..=23` and minute in `0..=59`.

use crate::errors::ValidationError;
use vstd::prelude::*;
use vstd::string::StrSliceExecFns;
use vstd::string::StringExecFns;

verus! {

/// A time of day without seconds or date.
#[derive(Debug, Clone, Copy, PartialEq, Eq, Structural)]
pub struct WallClockTime {
    pub hour: u8,
    pub minute: u8,
}

impl WallClockTime {
    /// Hour within a day, minute within an hour.
    pub open spec fn wf(self) -> bool {
        self.hour <= 23 && self.minute <= 59
    }
}

/// Whitespace stripped from around a clock time.
pub open spec fn ws_char(c: char) -> bool {
    c == ' ' || c == '\t' || c == '\n' || c == '\r'
}

/// The sequence with leading whitespace removed.
pub open spec fn spec_trim_start(s: Seq<char>) -> Seq<char>
    decreases s.len(),
{
    if s.len() > 0 && ws_char(s[0]) {
        spec_trim_start(s.drop_first())
    } else {
        s
    }
}

/// The sequence with trailing whitespace removed.
pub open spec fn spec_trim_end(s: Seq<char>) -> Seq<char>
    decreases s.len(),
{
    if s.len() > 0 && ws_char(s[s.len() - 1]) {
        spec_trim_end(s.drop_last())
    } else {
        s
    }
}

/// The sequence with surrounding whitespace removed.
pub open spec fn spec_trim(s: Seq<char>) -> Seq<char> {
    spec_trim_end(spec_trim_start(s))
}

/// A whitespace prefix of length `i` drops out of `spec_trim_start`.
proof fn lemma_trim_start_skip(s: Seq<char>, i: int)
    requires
        0 <= i <= s.len(),
        forall|k: int| 0 <= k < i ==> ws_char(#[trigger] s[k]),
        i == s.len() || !ws_char(s[i]),
    ensures
        spec_trim_start(s) == s.subrange(i, s.len() as int),
    decreases i,
{
    if i == 0 {
        assert(spec_trim_start(s) =~= s.subrange(0, s.len() as int));
    } else {
        let t = s.drop_first();
        assert(forall|k: int| 0 <= k < i - 1 ==> ws_char(#[trigger] t[k]));
        lemma_trim_start_skip(t, i - 1);
        assert(t.subrange(i - 1, t.len() as int) =~= s.subrange(i, s.len() as int));
    }
}

/// A whitespace suffix from index `j` on drops out of `spec_trim_end`.
proof fn lemma_trim_end_skip(s: Seq<char>, j: int)
    requires
        0 <= j <= s.len(),
        forall|k: int| j <= k < s.len() ==> ws_char(#[trigger] s[k]),
        j == 0 || !ws_char(s[j - 1]),
    ensures
        spec_trim_end(s) == s.subrange(0, j),
    decreases s.len() - j,
{
    if j == s.len() {
        assert(spec_trim_end(s) =~= s.subrange(0, j));
    } else {
        let t = s.drop_last();
        assert(forall|k: int| j <= k < t.len() ==> ws_char(#[trigger] t[k]));
        lemma_trim_end_skip(t, j);
        assert(t.subrange(0, j) =~= s.subrange(0, j));
    }
}

/// `spec_trim_start` leaves nothing to strip at the front.
proof fn lemma_trim_start_head(s: Seq<char>)
    ensures
        spec_trim_start(s).len() == 0 || !ws_char(spec_trim_start(s)[0]),
    decreases s.len(),
{
    if s.len() > 0 && ws_char(s[0]) {
        lemma_trim_start_head(s.drop_first());
    }
}

/// `spec_trim_end` strips only from the back: the result is a prefix of
/// its input, and nothing is left to strip there.
proof fn lemma_trim_end_prefix(s: Seq<char>)
    ensures
        spec_trim_end(s).len() <= s.len(),
        spec_trim_end(s) == s.subrange(0, spec_trim_end(s).len() as int),
        spec_trim_end(s).len() == 0 || !ws_char(spec_trim_end(s)[spec_trim_end(s).len() - 1]),
    decreases s.len(),
{
    if s.len() > 0 && ws_char(s[s.len() - 1]) {
        let t = s.drop_last();
        lemma_trim_end_prefix(t);
        assert(t.subrange(0, spec_trim_end(t).len() as int) =~= s.subrange(
            0,
            spec_trim_end(t).len() as int,
        ));
    } else {
        assert(spec_trim_end(s) =~= s.subrange(0, spec_trim_end(s).len() as int));
    }
}

/// Law: trimming is idempotent.
pub proof fn lemma_trim_idempotent(s: Seq<char>)
    ensures
        spec_trim(spec_trim(s)) == spec_trim(s),
{
    let t = spec_trim(s);
    lemma_trim_start_head(s);
    lemma_trim_end_prefix(spec_trim_start(s));
    if t.len() > 0 {
        assert(t[0] == spec_trim_start(s)[0]);
    }
    assert(spec_trim_start(t) == t);
    assert(spec_trim_end(t) == t);
}

/// One character of whitespace, per `ws_char`.
fn is_ws(c: char) -> (r: bool)
    ensures
        r == ws_char(c),
{
    c == ' ' || c == '\t' || c == '\n' || c == '\r'
}

/// Removes leading and trailing whitespace.
pub fn trim_whitespace(s: &str) -> (r: &str)
    ensures
        r@ == spec_trim(s@),
{
    let n = s.unicode_len();
    let mut i: usize = 0;
    while i < n && is_ws(s.get_char(i))
        invariant
            0 <= i <= n,
            n == s@.len(),
            forall|k: int| 0 <= k < i ==> ws_char(#[trigger] s@[k]),
        decreases n - i,
    {
        i = i + 1;
    }
    proof {
        lemma_trim_start_skip(s@, i as int);
    }
    if i == n {
        let r = s.substring_char(i, n);
        proof {
            lemma_trim_end_skip(spec_trim_start(s@), 0);
        }
        return r;
    }
    let mut j: usize = n;
    while j > i && is_ws(s.get_char(j - 1))
        invariant
            i <= j <= n,
            n == s@.len(),
            forall|k: int| j <= k < n ==> ws_char(#[trigger] s@[k]),
            !ws_char(s@[i as int]),
        decreases j,
    {
        j = j - 1;
    }
    let r = s.substring_char(i, j);
    proof {
        let t = spec_trim_start(s@);
        assert(forall|k: int| j - i <= k < t.len() ==> ws_char(#[trigger] t[k]));
        lemma_trim_end_skip(t, j - i);
        assert(t.subrange(0, j - i) =~= s@.subrange(i as int, j as int));
    }
    r
}

/// A decimal digit character.
pub open spec fn digit(c: char) -> bool {
    48 <= c as u32 <= 57
}

/// The numeric value of a decimal digit character.
pub open spec fn digit_val(c: char) -> int {
    c as u32 - 48
}

/// Exactly five characters shaped `DD:DD`.
pub open spec fn hhmm_shape(s: Seq<char>) -> bool {
    &&& s.len() == 5
    &&& digit(s[0])
    &&& digit(s[1])
    &&& s[2] == ':'
    &&& digit(s[3])
    &&& digit(s[4])
}

/// The hour field of a `DD:DD` sequence.
pub open spec fn spec_hour(s: Seq<char>) -> int {
    digit_val(s[0]) * 10 + digit_val(s[1])
}

/// The minute field of a `DD:DD` sequence.
pub open spec fn spec_minute(s: Seq<char>) -> int {
    digit_val(s[3]) * 10 + digit_val(s[4])
}

/// A well-formed clock time: `DD:DD` with hour below 24 and minute below
/// 60.
pub open spec fn hhmm_valid(s: Seq<char>) -> bool {
    hhmm_shape(s) && spec_hour(s) <= 23 && spec_minute(s) <= 59
}

/// The numeric value of one digit character, checked.
fn digit_value(c: char) -> (r: Option<u8>)
    ensures
        r is Some <==> digit(c),
        r matches Some(v) ==> v == digit_val(c) && v <= 9,
{
    let v = c as u32;
    if 48 <= v && v <= 57 {
        Some((v - 48) as u8)
    } else {
        None
    }
}

/// Parses a wall-clock time from untrusted input.
///
/// The input is trimmed of surrounding whitespace and accepted exactly
/// when what remains is a well-formed `HH:MM` 24-hour time; anything else
/// is rejected with an `InvalidTimeFormat` error naming the trimmed
/// input.
pub fn parse_hhmm(input: &str) -> (r: Result<WallClockTime, ValidationError>)
    ensures
        r matches Ok(t) ==> hhmm_valid(spec_trim(input@)) && t.wf() && t.hour == spec_hour(
            spec_trim(input@),
        ) && t.minute == spec_minute(spec_trim(input@)),
        r matches Err(e) ==> !hhmm_valid(spec_trim(input@)) && (e
            matches ValidationError::InvalidTimeFormat { input: i } && i@ == spec_trim(input@)),
{
    let trimmed = trim_whitespace(input);
    let err = ValidationError::InvalidTimeFormat { input: String::from_str(trimmed) };
    if trimmed.unicode_len() != 5 {
        return Err(err);
    }
    if trimmed.get_char(2) != ':' {
        return Err(err);
    }
    let d0 = digit_value(trimmed.get_char(0));
    let d1 = digit_value(trimmed.get_char(1));
    let d3 = digit_value(trimmed.get_char(3));
    let d4 = digit_value(trimmed.get_char(4));
    match (d0, d1, d3, d4) {
        (Some(h0), Some(h1), Some(m0), Some(m1)) => {
            let hour = h0 * 10 + h1;
            let minute = m0 * 10 + m1;
            if hour <= 23 && minute <= 59 {
                Ok(WallClockTime { hour, minute })
            } else {
                Err(err)
            }
        },
        _ => Err(err),
    }
}

} // verus!
