//! The two queries: current time in a zone, and conversion of a wall-clock
//! time between zones on today's date in the source zone.
//!
//! Both validate their string inputs first and surface every failure as a
//! `ValidationError`; the rendered payloads are pinned, field by field, to
//! the civil fields and offsets read at the resolved instants.

use crate::digits::format_offset_diff;
use crate::digits::format_utc_offset;
use crate::digits::spec_format_offset_diff;
use crate::digits::spec_format_utc_offset;
use crate::errors::ValidationError;
use crate::parse::hhmm_valid;
use crate::parse::lemma_trim_idempotent;
use crate::parse::parse_hhmm;
use crate::parse::spec_hour;
use crate::parse::spec_minute;
use crate::parse::spec_trim;
use crate::parse::trim_whitespace;
use crate::zones::civil_to_zoned;
use crate::zones::format_datetime;
use crate::zones::matches_resolution_error;
use crate::zones::now_in_zone;
use crate::zones::parse_timezone;
use crate::zones::resolution_must_fail;
use crate::zones::spec_format_datetime;
use crate::zones::zoned_fields;
use crate::zones::zoned_in_zone;
use crate::zones::ZoneHandle;
use crate::zones::ZonedFields;
use vstd::prelude::*;
use vstd::string::StringExecFns;

verus! {

/// Parameters of the current-time query.
#[derive(Debug)]
pub struct GetCurrentTimeParams {
    /// IANA timezone name; absent or empty means UTC.
    pub timezone: Option<String>,
}

/// Parameters of the conversion query.
#[derive(Debug)]
pub struct ConvertTimeParams {
    /// Source IANA timezone name.
    pub source_timezone: String,
    /// Time to convert, in 24-hour `HH:MM` format.
    pub time: String,
    /// Target IANA timezone name.
    pub target_timezone: String,
}

/// The current-time payload: zone name, ISO-8601 timestamp with offset,
/// the offset itself, and whether daylight saving time is in effect.
#[derive(Debug)]
pub struct CurrentTimeResult {
    pub timezone: String,
    pub datetime: String,
    pub utc_offset: String,
    pub is_dst: bool,
}

/// One side of a conversion: zone name, timestamp, offset.
#[derive(Debug)]
pub struct ConversionEntry {
    pub timezone: String,
    pub datetime: String,
    pub utc_offset: String,
}

/// The conversion payload: both sides plus the signed offset difference.
#[derive(Debug)]
pub struct ConversionResult {
    pub source: ConversionEntry,
    pub target: ConversionEntry,
    pub time_difference: String,
}

/// The requested zone name: an absent parameter reads as empty.
pub open spec fn spec_tz_param(p: GetCurrentTimeParams) -> Seq<char> {
    match p.timezone {
        Option::Some(s) => s@,
        Option::None => Seq::<char>::empty(),
    }
}

/// `c` renders exactly the instant `f`: the timestamp, offset and DST
/// flag all come from the same civil fields.
pub open spec fn renders_current(c: CurrentTimeResult, f: ZonedFields) -> bool {
    &&& c.datetime@ == spec_format_datetime(f)
    &&& c.utc_offset@ == spec_format_utc_offset(f.offset_seconds as int)
    &&& c.is_dst == f.is_dst
}

/// `c` renders exactly the instant `f`, offset included.
pub open spec fn renders_entry(c: ConversionEntry, f: ZonedFields) -> bool {
    &&& c.datetime@ == spec_format_datetime(f)
    &&& c.utc_offset@ == spec_format_utc_offset(f.offset_seconds as int)
}

/// `c` renders the source instant `sf` and the target instant `tf`, and
/// its difference string is exactly the target offset minus the source
/// offset.
pub open spec fn renders_conversion(c: ConversionResult, sf: ZonedFields, tf: ZonedFields) -> bool {
    &&& renders_entry(c.source, sf)
    &&& renders_entry(c.target, tf)
    &&& c.time_difference@ == spec_format_offset_diff(tf.offset_seconds - sf.offset_seconds)
}

/// A success payload of the current-time query: some well-formed instant
/// is rendered consistently across all fields.
pub open spec fn current_payload_ok(c: CurrentTimeResult) -> bool {
    exists|f: ZonedFields| f.wf() && #[trigger] renders_current(c, f)
}

/// Every error the conversion query may return, with its exact payload:
/// a resolution error of the source zone; a resolution error of the
/// target zone (only once the source cannot have been rejected as an
/// offset literal); a time-format error naming the trimmed time (only
/// when that time is not a well-formed `HH:MM`); or a nonexistent civil
/// time naming the trimmed time and the source zone (only when the time
/// itself is well-formed).
pub open spec fn matches_conversion_error(p: ConvertTimeParams, e: ValidationError) -> bool {
    ||| matches_resolution_error(p.source_timezone@, e)
    ||| (!resolution_must_fail(p.source_timezone@) && matches_resolution_error(
        p.target_timezone@,
        e,
    ))
    ||| (!resolution_must_fail(p.source_timezone@) && !resolution_must_fail(p.target_timezone@)
        && !hhmm_valid(spec_trim(p.time@)) && (e matches ValidationError::InvalidTimeFormat {
        input,
    } && input@ == spec_trim(p.time@)))
    ||| (!resolution_must_fail(p.source_timezone@) && !resolution_must_fail(p.target_timezone@)
        && hhmm_valid(spec_trim(p.time@)) && (e matches ValidationError::NonexistentCivilTime {
        time,
        zone,
    } && time@ == spec_trim(p.time@) && zone@ == p.source_timezone@))
}

/// A success payload of the conversion query: the inputs passed every
/// validation, and both entries render one instant whose source civil
/// time is the requested wall-clock time.
pub open spec fn conversion_payload_ok(p: ConvertTimeParams, c: ConversionResult) -> bool {
    &&& !resolution_must_fail(p.source_timezone@)
    &&& !resolution_must_fail(p.target_timezone@)
    &&& hhmm_valid(spec_trim(p.time@))
    &&& exists|sf: ZonedFields, tf: ZonedFields|
        sf.wf() && tf.wf() && sf.hour == spec_hour(spec_trim(p.time@)) && sf.minute == spec_minute(
            spec_trim(p.time@),
        ) && sf.second == 0 && #[trigger] renders_conversion(c, sf, tf)
}

/// Assembles the current-time payload from a zone name and the civil
/// fields read at the current instant.
pub fn build_current_time_result(name: String, f: &ZonedFields) -> (r: CurrentTimeResult)
    requires
        f.wf(),
    ensures
        r.timezone@ == name@,
        renders_current(r, *f),
{
    CurrentTimeResult {
        timezone: name,
        datetime: format_datetime(f),
        utc_offset: format_utc_offset(f.offset_seconds),
        is_dst: f.is_dst,
    }
}

/// Assembles the conversion payload from both zones' names and the civil
/// fields of the same instant expressed in each.
pub fn build_conversion_result(
    source_name: String,
    sf: &ZonedFields,
    target_name: String,
    tf: &ZonedFields,
) -> (r: ConversionResult)
    requires
        sf.wf(),
        tf.wf(),
    ensures
        r.source.timezone@ == source_name@,
        r.target.timezone@ == target_name@,
        renders_conversion(r, *sf, *tf),
{
    let diff = tf.offset_seconds - sf.offset_seconds;
    ConversionResult {
        source: ConversionEntry {
            timezone: source_name,
            datetime: format_datetime(sf),
            utc_offset: format_utc_offset(sf.offset_seconds),
        },
        target: ConversionEntry {
            timezone: target_name,
            datetime: format_datetime(tf),
            utc_offset: format_utc_offset(tf.offset_seconds),
        },
        time_difference: format_offset_diff(diff),
    }
}

/// Law: the source zone is validated before the target zone: when the
/// source spells a raw offset, the conversion's error is the source's
/// own offset-literal rejection, whatever the target was.
pub proof fn lemma_source_checked_first(p: ConvertTimeParams, e: ValidationError)
    requires
        resolution_must_fail(p.source_timezone@),
        matches_conversion_error(p, e),
    ensures
        matches_resolution_error(p.source_timezone@, e),
{
}

/// Law: a conversion whose target instant sits at zero UTC offset (as a
/// round trip back into UTC does) renders the target offset as `+00:00`;
/// when the source instant sits at zero offset too, the difference
/// renders as `+0:00`.
pub proof fn lemma_round_trip_offsets(c: ConversionResult, sf: ZonedFields, tf: ZonedFields)
    requires
        renders_conversion(c, sf, tf),
        tf.offset_seconds == 0,
    ensures
        c.target.utc_offset@ == "+00:00"@,
        sf.offset_seconds == 0 ==> c.time_difference@ == "+0:00"@,
{
    reveal_strlit("+00:00");
    reveal_strlit("+0:00");
    assert(spec_format_utc_offset(0) =~= "+00:00"@);
    assert(spec_format_offset_diff(0) =~= "+0:00"@);
}

/// The current wall-clock time in the requested zone.
///
/// An absent or empty zone name means UTC. An offset literal is rejected
/// without consulting the database; a failed lookup is classified per
/// `matches_resolution_error`. On success the payload renders, field by
/// field, the civil fields read at the current instant in the resolved
/// zone.
#[verifier::rlimit(50)]
pub fn get_current_time(params: &GetCurrentTimeParams) -> (r: Result<
    CurrentTimeResult,
    ValidationError,
>)
    ensures
        spec_tz_param(*params).len() == 0 ==> (r matches Ok(c) && c.timezone@ == "UTC"@),
        resolution_must_fail(spec_tz_param(*params)) ==> r is Err,
        r matches Err(e) ==> matches_resolution_error(spec_tz_param(*params), e),
        r matches Ok(c) ==> current_payload_ok(c),
{
    let handle: ZoneHandle = match &params.timezone {
        Option::None => ZoneHandle::utc(),
        Option::Some(s) => {
            if s.as_str().is_empty() {
                ZoneHandle::utc()
            } else {
                match parse_timezone(s.as_str()) {
                    Ok(h) => h,
                    Err(e) => {
                        return Err(e);
                    },
                }
            }
        },
    };
    let (tz, name) = handle.into_parts();
    let z = now_in_zone(&tz);
    let f = zoned_fields(&z);
    let c = build_current_time_result(name, &f);
    proof {
        assert(f.wf() && renders_current(c, f));
        assert(current_payload_ok(c));
    }
    Ok(c)
}

/// Converts a wall-clock time from the source zone to the target zone on
/// today's date in the source zone.
///
/// The zones are resolved first, source before target, then the time is
/// parsed; the first failure is returned. A time that falls in the source
/// zone's spring-forward gap is rejected as nonexistent; a time that
/// occurs twice (fall-back fold) resolves to the earlier instant. On
/// success both payload entries render the same instant in their
/// respective zones, and the difference string is exactly the target
/// offset minus the source offset at that instant.
#[verifier::rlimit(50)]
pub fn convert_time(params: &ConvertTimeParams) -> (r: Result<ConversionResult, ValidationError>)
    ensures
        resolution_must_fail(params.source_timezone@) ==> r is Err,
        !resolution_must_fail(params.source_timezone@) && resolution_must_fail(
            params.target_timezone@,
        ) ==> r is Err,
        !resolution_must_fail(params.source_timezone@) && !resolution_must_fail(
            params.target_timezone@,
        ) && !hhmm_valid(spec_trim(params.time@)) ==> r is Err,
        r matches Err(e) ==> matches_conversion_error(*params, e),
        r matches Ok(c) ==> conversion_payload_ok(*params, c),
{
    let source = match parse_timezone(params.source_timezone.as_str()) {
        Ok(h) => h,
        Err(e) => {
            return Err(e);
        },
    };
    let target = match parse_timezone(params.target_timezone.as_str()) {
        Ok(h) => h,
        Err(e) => {
            return Err(e);
        },
    };
    let trimmed = trim_whitespace(params.time.as_str());
    proof {
        lemma_trim_idempotent(params.time@);
    }
    let time = match parse_hhmm(trimmed) {
        Ok(t) => t,
        Err(e) => {
            return Err(e);
        },
    };
    let (source_tz, source_name) = source.into_parts();
    let (target_tz, target_name) = target.into_parts();
    let today_z = now_in_zone(&source_tz);
    let today = zoned_fields(&today_z);
    let placed = civil_to_zoned(
        &source_tz,
        today.year,
        today.month,
        today.day,
        time.hour,
        time.minute,
    );
    let (source_z, sf) = match placed {
        Option::Some(p) => p,
        Option::None => {
            return Err(
                ValidationError::NonexistentCivilTime {
                    time: String::from_str(trimmed),
                    zone: params.source_timezone.clone(),
                },
            );
        },
    };
    let target_z = zoned_in_zone(&source_z, &target_tz);
    let tf = zoned_fields(&target_z);
    let c = build_conversion_result(source_name, &sf, target_name, &tf);
    proof {
        assert(sf.wf() && tf.wf() && renders_conversion(c, sf, tf));
        assert(conversion_payload_ok(*params, c));
    }
    Ok(c)
}

} // verus!
