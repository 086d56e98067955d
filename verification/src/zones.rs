//! Timezone resolution and the trusted boundary around the `jiff` crate.
//!
//! The resolver classifies untrusted zone-name input itself: raw offsets
//! and `UTC±`/`GMT±` forms are rejected before the database is consulted,
//! and a failed lookup is classified as an ambiguous abbreviation or an
//! invalid name. Only the database lookup, the system clock, and the
//! offset arithmetic of the timezone database live behind trusted
//! wrappers; everything read from them is returned as plain bounded
//! values.

use crate::digits::format_utc_offset;
use crate::digits::push_pad2;
use crate::digits::push_pad4;
use crate::digits::spec_format_utc_offset;
use crate::digits::spec_pad2;
use crate::digits::spec_pad4;
use crate::errors::ValidationError;
use vstd::prelude::*;
use vstd::string::StrSliceExecFns;
use vstd::string::StringExecFns;

verus! {

#[verifier::external_type_specification]
#[verifier::external_body]
pub struct ExTimeZone(jiff::tz::TimeZone);

#[verifier::external_type_specification]
#[verifier::external_body]
pub struct ExZoned(jiff::Zoned);

/// What the logic reads of one instant expressed in one zone: its civil
/// date and time, the zone's UTC offset, and whether daylight saving time
/// is in effect.
#[derive(Debug, Clone, Copy)]
pub struct ZonedFields {
    pub year: i16,
    pub month: u8,
    pub day: u8,
    pub hour: u8,
    pub minute: u8,
    pub second: u8,
    pub offset_seconds: i32,
    pub is_dst: bool,
}

impl ZonedFields {
    /// The ranges jiff documents for each field: years within `±9999`,
    /// calendar month and day, 24-hour clock fields, and offsets within
    /// `±25:59:59`.
    pub open spec fn wf(self) -> bool {
        &&& -9999 <= self.year <= 9999
        &&& 1 <= self.month <= 12
        &&& 1 <= self.day <= 31
        &&& self.hour <= 23
        &&& self.minute <= 59
        &&& self.second <= 59
        &&& -93599 <= self.offset_seconds <= 93599
    }
}

/// An instant's civil fields rendered as an ISO-8601 civil date-time with
/// a numeric offset suffix: `YYYY-MM-DDTHH:MM:SS±HH:MM` (a negative year
/// carries a leading `-`).
pub open spec fn spec_format_datetime(f: ZonedFields) -> Seq<char> {
    let y = if f.year < 0 {
        seq!['-'] + spec_pad4(-(f.year as int))
    } else {
        spec_pad4(f.year as int)
    };
    y + seq!['-'] + spec_pad2(f.month as int) + seq!['-'] + spec_pad2(f.day as int) + seq!['T']
        + spec_pad2(f.hour as int) + seq![':'] + spec_pad2(f.minute as int) + seq![':'] + spec_pad2(
        f.second as int,
    ) + spec_format_utc_offset(f.offset_seconds as int)
}

/// Renders an instant's civil fields as `YYYY-MM-DDTHH:MM:SS±HH:MM`.
pub fn format_datetime(f: &ZonedFields) -> (r: String)
    requires
        f.wf(),
    ensures
        r@ == spec_format_datetime(*f),
{
    proof {
        reveal_strlit("-");
        reveal_strlit("T");
        reveal_strlit(":");
    }
    let mut s = String::new();
    if f.year < 0 {
        s.append("-");
        push_pad4(&mut s, (-(f.year as i32)) as u32);
    } else {
        push_pad4(&mut s, f.year as u32);
    }
    s.append("-");
    push_pad2(&mut s, f.month as u32);
    s.append("-");
    push_pad2(&mut s, f.day as u32);
    s.append("T");
    push_pad2(&mut s, f.hour as u32);
    s.append(":");
    push_pad2(&mut s, f.minute as u32);
    s.append(":");
    push_pad2(&mut s, f.second as u32);
    let off = format_utc_offset(f.offset_seconds);
    s.append(off.as_str());
    assert(s@ =~= spec_format_datetime(*f));
    s
}

/// Relies on jiff::tz::TimeZone::UTC: the fixed zone with no offset.
#[verifier::external_body]
fn tz_utc() -> jiff::tz::TimeZone {
    jiff::tz::TimeZone::UTC
}

/// Relies on jiff::tz::TimeZone::get: exact, case-sensitive lookup of an
/// IANA zone name in the timezone database; `Some` exactly on recognized
/// names.
#[verifier::external_body]
fn tz_lookup(name: &str) -> Option<jiff::tz::TimeZone> {
    jiff::tz::TimeZone::get(name).ok()
}

/// Relies on jiff::tz::TimeZone::iana_name: the canonical IANA name of
/// the zone, or `None` for zones without one (fixed offsets, POSIX
/// rules).
#[verifier::external_body]
fn tz_iana_name(tz: &jiff::tz::TimeZone) -> Option<String> {
    tz.iana_name().map(|n| n.to_owned())
}

/// Relies on jiff::Zoned::now and jiff::Zoned::with_time_zone: the
/// current instant of the system clock, expressed in the given zone.
#[verifier::external_body]
pub(crate) fn now_in_zone(tz: &jiff::tz::TimeZone) -> jiff::Zoned {
    jiff::Zoned::now().with_time_zone(tz.clone())
}

/// Relies on jiff::Zoned's field accessors and
/// jiff::tz::TimeZone::to_offset_info: the civil fields are within the
/// documented calendar and clock ranges, the offset within jiff's
/// `-25:59:59..=25:59:59`, and the DST flag is the timezone database's
/// own daylight-saving classification of the offset in effect.
#[verifier::external_body]
pub(crate) fn zoned_fields(z: &jiff::Zoned) -> (r: ZonedFields)
    ensures
        r.wf(),
{
    let info = z.time_zone().to_offset_info(z.timestamp());
    ZonedFields {
        year: z.year(),
        month: z.month() as u8,
        day: z.day() as u8,
        hour: z.hour() as u8,
        minute: z.minute() as u8,
        second: z.second() as u8,
        offset_seconds: z.offset().seconds(),
        is_dst: info.dst().is_dst(),
    }
}

/// Relies on jiff::civil::Date::new, jiff::civil::Date::at and
/// jiff::tz::TimeZone::to_ambiguous_zoned: the given civil datetime
/// placed in the zone. A datetime falling in a spring-forward gap, an
/// invalid calendar date, or an instant jiff cannot represent yields
/// `None`; in a fall-back fold the earlier of the two instants is chosen.
/// On success the civil fields of the result are exactly the arguments,
/// with zero seconds.
#[verifier::external_body]
pub(crate) fn civil_to_zoned(
    tz: &jiff::tz::TimeZone,
    year: i16,
    month: u8,
    day: u8,
    hour: u8,
    minute: u8,
) -> (r: Option<(jiff::Zoned, ZonedFields)>)
    requires
        1 <= month <= 12,
        1 <= day <= 31,
        hour <= 23,
        minute <= 59,
    ensures
        r matches Some(p) ==> p.1.wf() && p.1.year == year && p.1.month == month && p.1.day == day
            && p.1.hour == hour && p.1.minute == minute && p.1.second == 0,
{
    let date = jiff::civil::Date::new(year, month as i8, day as i8).ok()?;
    let amb = tz.to_ambiguous_zoned(date.at(hour as i8, minute as i8, 0, 0));
    let z = match amb.offset() {
        jiff::tz::AmbiguousOffset::Gap { .. } => return None,
        _ => amb.earlier().ok()?,
    };
    let f = zoned_fields(&z);
    Some((z, f))
}

/// Relies on jiff::Zoned::with_time_zone: the same instant expressed in
/// another zone.
#[verifier::external_body]
pub(crate) fn zoned_in_zone(z: &jiff::Zoned, tz: &jiff::tz::TimeZone) -> jiff::Zoned {
    z.with_time_zone(tz.clone())
}

/// A successfully resolved timezone: the database handle together with
/// its canonical IANA name (`UTC` for zones without one).
pub struct ZoneHandle {
    pub(crate) tz: jiff::tz::TimeZone,
    pub(crate) name: String,
}

impl ZoneHandle {
    /// The canonical zone name carried by this handle.
    pub closed spec fn spec_name(&self) -> Seq<char> {
        self.name@
    }

    /// The canonical zone name carried by this handle.
    pub fn name(&self) -> (r: &String)
        ensures
            r@ == self.spec_name(),
    {
        &self.name
    }

    /// Splits the handle into the database zone and its canonical name.
    pub fn into_parts(self) -> (r: (jiff::tz::TimeZone, String))
        ensures
            r.1@ == self.spec_name(),
    {
        (self.tz, self.name)
    }

    /// The handle for UTC itself, used when no zone is requested.
    pub fn utc() -> (r: ZoneHandle)
        ensures
            r.spec_name() == "UTC"@,
    {
        ZoneHandle { tz: tz_utc(), name: String::from_str("UTC") }
    }
}

/// The input begins with `+` or `-`: a raw offset literal.
pub open spec fn sign_prefixed(s: Seq<char>) -> bool {
    s.len() >= 1 && (s[0] == '+' || s[0] == '-')
}

/// The input begins with `UTC+`, `UTC-`, `GMT+` or `GMT-`: an offset
/// written against a named base.
pub open spec fn utc_prefixed(s: Seq<char>) -> bool {
    &&& s.len() >= 4
    &&& ((s[0] == 'U' && s[1] == 'T' && s[2] == 'C') || (s[0] == 'G' && s[1] == 'M' && s[2]
        == 'T'))
    &&& (s[3] == '+' || s[3] == '-')
}

/// Inputs rejected as offset literals before the database is consulted.
pub open spec fn resolution_must_fail(s: Seq<char>) -> bool {
    sign_prefixed(s) || utc_prefixed(s)
}

/// At most five characters, all ASCII uppercase letters: the shape of a
/// timezone abbreviation such as `EST` or `PST`.
pub open spec fn upper_abbrev(s: Seq<char>) -> bool {
    s.len() <= 5 && forall|i: int| 0 <= i < s.len() ==> 65 <= (#[trigger] s[i]) as u32 <= 90
}

/// The one error that resolution of `input` may return: offset literals
/// are rejected as such (distinguishing the `UTC`/`GMT` style), and a
/// failed lookup is an ambiguous abbreviation when the input is shaped
/// like one, otherwise an invalid zone name.
pub open spec fn matches_resolution_error(input: Seq<char>, e: ValidationError) -> bool {
    if sign_prefixed(input) {
        e matches ValidationError::OffsetLiteral { input: i, utc_style } && i@ == input
            && !utc_style
    } else if utc_prefixed(input) {
        e matches ValidationError::OffsetLiteral { input: i, utc_style } && i@ == input
            && utc_style
    } else if upper_abbrev(input) {
        e matches ValidationError::AmbiguousAbbreviation { input: i } && i@ == input
    } else {
        e matches ValidationError::InvalidZone { input: i } && i@ == input
    }
}

/// Law: whichever error resolution returns, its message names the
/// offending input verbatim.
pub proof fn lemma_resolution_error_names_input(input: Seq<char>, e: ValidationError)
    requires
        matches_resolution_error(input, e),
    ensures
        crate::errors::contains_seq(crate::errors::spec_message(e), input),
{
    crate::errors::lemma_message_contains_input(e);
}

/// Law: a short all-uppercase input that resolution rejects is always
/// classified as an ambiguous abbreviation, never as a generic invalid
/// zone or an offset literal (its first character cannot be a sign, and
/// its fourth cannot be one either).
pub proof fn lemma_abbreviation_classified(input: Seq<char>, e: ValidationError)
    requires
        upper_abbrev(input),
        matches_resolution_error(input, e),
    ensures
        e matches ValidationError::AmbiguousAbbreviation { input: i } && i@ == input,
{
    assert(!sign_prefixed(input));
    assert(!utc_prefixed(input));
}

/// The input is at most five characters of ASCII uppercase.
fn is_upper_abbrev(s: &str) -> (r: bool)
    ensures
        r == upper_abbrev(s@),
{
    let n = s.unicode_len();
    if n > 5 {
        return false;
    }
    let mut i: usize = 0;
    while i < n
        invariant
            0 <= i <= n <= 5,
            n == s@.len(),
            forall|k: int| 0 <= k < i ==> 65 <= (#[trigger] s@[k]) as u32 <= 90,
        decreases n - i,
    {
        let v = s.get_char(i) as u32;
        if v < 65 || v > 90 {
            return false;
        }
        i = i + 1;
    }
    true
}

/// Validates and resolves a timezone-name string against the timezone
/// database.
///
/// Raw offsets (leading `+`/`-`, or a `UTC`/`GMT` base followed by a
/// sign) are rejected without consulting the database; on a failed
/// lookup, a short all-uppercase input is classified as an ambiguous
/// abbreviation and anything else as an invalid zone name. Every error
/// carries the input verbatim.
pub fn parse_timezone(input: &str) -> (r: Result<ZoneHandle, ValidationError>)
    ensures
        resolution_must_fail(input@) ==> r is Err,
        r matches Err(e) ==> matches_resolution_error(input@, e),
{
    let n = input.unicode_len();
    if n >= 1 {
        let c0 = input.get_char(0);
        if c0 == '+' || c0 == '-' {
            return Err(
                ValidationError::OffsetLiteral {
                    input: String::from_str(input),
                    utc_style: false,
                },
            );
        }
        if n >= 4 {
            let c1 = input.get_char(1);
            let c2 = input.get_char(2);
            let c3 = input.get_char(3);
            let named_base = (c0 == 'U' && c1 == 'T' && c2 == 'C') || (c0 == 'G' && c1 == 'M' && c2
                == 'T');
            if named_base && (c3 == '+' || c3 == '-') {
                return Err(
                    ValidationError::OffsetLiteral {
                        input: String::from_str(input),
                        utc_style: true,
                    },
                );
            }
        }
    }
    match tz_lookup(input) {
        Some(tz) => {
            let name = match tz_iana_name(&tz) {
                Some(n) => n,
                None => String::from_str("UTC"),
            };
            Ok(ZoneHandle { tz, name })
        },
        None => {
            if is_upper_abbrev(input) {
                Err(ValidationError::AmbiguousAbbreviation { input: String::from_str(input) })
            } else {
                Err(ValidationError::InvalidZone { input: String::from_str(input) })
            }
        },
    }
}

} // verus!
