//! Validation failures and their human-readable messages.
//!
//! Every message names the offending input verbatim and states the
//! expected valid form; the exact text of each message is pinned by
//! [`spec_message`].

use vstd::prelude::*;
use vstd::string::StringExecFns;

verus! {

/// A validation failure, tagged by kind and carrying the offending input.
#[derive(Debug)]
pub enum ValidationError {
    /// The input is not a recognized IANA timezone name.
    InvalidZone { input: String },
    /// The input looks like a short all-uppercase timezone abbreviation,
    /// which is ambiguous (several zones share one abbreviation).
    AmbiguousAbbreviation { input: String },
    /// The input is a raw UTC offset (`+05:30`, `UTC+5`, `GMT-3`), which
    /// is rejected in favor of a canonical IANA name; `utc_style` records
    /// whether the offset was written with a `UTC`/`GMT` prefix.
    OffsetLiteral { input: String, utc_style: bool },
    /// The input is not a strict `HH:MM` 24-hour clock time.
    InvalidTimeFormat { input: String },
    /// The requested clock time falls in a spring-forward DST gap and so
    /// does not exist on the anchor date in the source zone.
    NonexistentCivilTime { time: String, zone: String },
}

/// The exact message text rendered for each error.
pub open spec fn spec_message(e: ValidationError) -> Seq<char> {
    match e {
        ValidationError::InvalidZone { input } => "Invalid timezone: '"@ + input@
            + "'. Please use a valid IANA timezone name (e.g., 'America/New_York')."@,
        ValidationError::AmbiguousAbbreviation { input } => "Timezone abbreviation '"@ + input@
            + "' is ambiguous. Please use a valid IANA timezone name (e.g., 'America/New_York' instead of 'EST')."@,
        ValidationError::OffsetLiteral { input, utc_style } => {
            if utc_style {
                "Timezone offset '"@ + input@
                    + "' is not supported. Please use a valid IANA timezone name (e.g., 'Asia/Kolkata' instead of 'UTC+5:30')."@
            } else {
                "Timezone offset '"@ + input@
                    + "' is not supported. Please use a valid IANA timezone name (e.g., 'Asia/Kolkata' instead of '+05:30')."@
            }
        },
        ValidationError::InvalidTimeFormat { input } => "Invalid time format: '"@ + input@
            + "'. Expected HH:MM in 24-hour format (e.g., '14:30')."@,
        ValidationError::NonexistentCivilTime { time, zone } => "The time "@ + time@
            + " does not exist in timezone '"@ + zone@
            + "' due to a DST transition (spring forward). Please choose a different time."@,
    }
}

impl ValidationError {
    /// Renders the human-readable message for this error.
    pub fn message(&self) -> (r: String)
        ensures
            r@ == spec_message(*self),
    {
        match self {
            ValidationError::InvalidZone { input } => {
                let mut s = String::from_str("Invalid timezone: '");
                s.append(input.as_str());
                s.append("'. Please use a valid IANA timezone name (e.g., 'America/New_York').");
                s
            },
            ValidationError::AmbiguousAbbreviation { input } => {
                let mut s = String::from_str("Timezone abbreviation '");
                s.append(input.as_str());
                s.append(
                    "' is ambiguous. Please use a valid IANA timezone name (e.g., 'America/New_York' instead of 'EST').",
                );
                s
            },
            ValidationError::OffsetLiteral { input, utc_style } => {
                let mut s = String::from_str("Timezone offset '");
                s.append(input.as_str());
                if *utc_style {
                    s.append(
                        "' is not supported. Please use a valid IANA timezone name (e.g., 'Asia/Kolkata' instead of 'UTC+5:30').",
                    );
                } else {
                    s.append(
                        "' is not supported. Please use a valid IANA timezone name (e.g., 'Asia/Kolkata' instead of '+05:30').",
                    );
                }
                s
            },
            ValidationError::InvalidTimeFormat { input } => {
                let mut s = String::from_str("Invalid time format: '");
                s.append(input.as_str());
                s.append("'. Expected HH:MM in 24-hour format (e.g., '14:30').");
                s
            },
            ValidationError::NonexistentCivilTime { time, zone } => {
                let mut s = String::from_str("The time ");
                s.append(time.as_str());
                s.append(" does not exist in timezone '");
                s.append(zone.as_str());
                s.append(
                    "' due to a DST transition (spring forward). Please choose a different time.",
                );
                s
            },
        }
    }
}

/// `needle` occurs as a contiguous run of characters inside `hay`.
pub open spec fn contains_seq(hay: Seq<char>, needle: Seq<char>) -> bool {
    exists|i: int|
        0 <= i && i + needle.len() <= hay.len() && #[trigger] hay.subrange(
            i,
            i + needle.len() as int,
        ) == needle
}

/// Law: every error's message names the offending input verbatim; for a
/// nonexistent civil time, both the clock time and the zone name appear.
pub proof fn lemma_message_contains_input(e: ValidationError)
    ensures
        e matches ValidationError::InvalidZone { input } ==> contains_seq(
            spec_message(e),
            input@,
        ),
        e matches ValidationError::AmbiguousAbbreviation { input } ==> contains_seq(
            spec_message(e),
            input@,
        ),
        e matches ValidationError::OffsetLiteral { input, .. } ==> contains_seq(
            spec_message(e),
            input@,
        ),
        e matches ValidationError::InvalidTimeFormat { input } ==> contains_seq(
            spec_message(e),
            input@,
        ),
        e matches ValidationError::NonexistentCivilTime { time, zone } ==> contains_seq(
            spec_message(e),
            time@,
        ) && contains_seq(spec_message(e), zone@),
{
    match e {
        ValidationError::InvalidZone { input } => {
            let pre = "Invalid timezone: '"@;
            assert(spec_message(e).subrange(pre.len() as int, pre.len() + input@.len() as int) =~= input@);
        },
        ValidationError::AmbiguousAbbreviation { input } => {
            let pre = "Timezone abbreviation '"@;
            assert(spec_message(e).subrange(pre.len() as int, pre.len() + input@.len() as int) =~= input@);
        },
        ValidationError::OffsetLiteral { input, utc_style } => {
            let pre = "Timezone offset '"@;
            assert(spec_message(e).subrange(pre.len() as int, pre.len() + input@.len() as int) =~= input@);
        },
        ValidationError::InvalidTimeFormat { input } => {
            let pre = "Invalid time format: '"@;
            assert(spec_message(e).subrange(pre.len() as int, pre.len() + input@.len() as int) =~= input@);
        },
        ValidationError::NonexistentCivilTime { time, zone } => {
            let pre = "The time "@;
            assert(spec_message(e).subrange(pre.len() as int, pre.len() + time@.len() as int) =~= time@);
            let mid = pre + time@ + " does not exist in timezone '"@;
            assert(spec_message(e).subrange(mid.len() as int, mid.len() + zone@.len() as int) =~= zone@);
        },
    }
}

} // verus!
