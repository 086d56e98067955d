use mcp_time::convert_time;
use mcp_time::format_offset_diff;
use mcp_time::format_utc_offset;
use mcp_time::get_current_time;
use mcp_time::parse_hhmm;
use mcp_time::parse_timezone;
use mcp_time::query::build_current_time_result;
use mcp_time::zones::ZonedFields;
use mcp_time::ConvertTimeParams;
use mcp_time::GetCurrentTimeParams;
use mcp_time::ValidationError;

#[test]
fn format_utc_offset_known_values() {
    assert_eq!(format_utc_offset(18000), "+05:00");
    assert_eq!(format_utc_offset(-18000), "-05:00");
    assert_eq!(format_utc_offset(20700), "+05:45");
    assert_eq!(format_utc_offset(0), "+00:00");
}

#[test]
fn format_utc_offset_is_total_on_extreme_inputs() {
    assert_eq!(format_utc_offset(93599), "+25:59");
    assert_eq!(format_utc_offset(-93599), "-25:59");
    assert_eq!(format_utc_offset(i32::MIN), "-596523:14");
    assert_eq!(format_utc_offset(i32::MAX), "+596523:14");
}

#[test]
fn format_offset_diff_known_values() {
    assert_eq!(format_offset_diff(0), "+0:00");
    assert_eq!(format_offset_diff(3600), "+1:00");
    assert_eq!(format_offset_diff(-14400), "-4:00");
    assert_eq!(format_offset_diff(20700 - 0), "+5:45");
    assert_eq!(format_offset_diff(-34200), "-9:30");
}

#[test]
fn parse_hhmm_accepts_valid_times() {
    assert_eq!(parse_hhmm("00:00").unwrap().hour, 0);
    assert_eq!(parse_hhmm("23:59").unwrap().minute, 59);
    let t = parse_hhmm("14:30").unwrap();
    assert_eq!((t.hour, t.minute), (14, 30));
    let padded = parse_hhmm("  14:30  ").unwrap();
    assert_eq!((padded.hour, padded.minute), (14, 30));
}

#[test]
fn parse_hhmm_rejects_malformed_times() {
    assert!(parse_hhmm("24:00").is_err());
    assert!(parse_hhmm("14:30:00").is_err());
    assert!(parse_hhmm("25:99").is_err());
    assert!(parse_hhmm("1:30").is_err());
    assert!(parse_hhmm("14-30").is_err());
    assert!(parse_hhmm("").is_err());
    assert!(parse_hhmm("ab:cd").is_err());
    assert!(parse_hhmm("14:3x").is_err());
}

#[test]
fn parse_hhmm_error_names_trimmed_input() {
    let err = parse_hhmm(" 14:65 ").err().unwrap();
    assert_eq!(
        err.message(),
        "Invalid time format: '14:65'. Expected HH:MM in 24-hour format (e.g., '14:30')."
    );
}

#[test]
fn offset_literals_are_rejected_with_the_literal_named() {
    for input in ["+05:30", "-05:00", "UTC+5", "UTC-8", "GMT+3", "GMT-11"] {
        let err = parse_timezone(input).err().unwrap();
        assert!(
            matches!(err, ValidationError::OffsetLiteral { .. }),
            "expected offset-literal rejection for {input}"
        );
        let msg = err.message();
        assert!(msg.contains(input), "message must name {input}, got: {msg}");
    }
}

#[test]
fn short_uppercase_inputs_are_classified_as_abbreviations() {
    for input in ["PST", "XYZ", "ABCDE"] {
        let err = parse_timezone(input).err().unwrap();
        assert!(
            matches!(err, ValidationError::AmbiguousAbbreviation { .. }),
            "expected abbreviation rejection for {input}"
        );
        assert!(err.message().contains(input));
    }
}

#[test]
fn longer_invalid_names_are_generic_invalid_zone() {
    let err = parse_timezone("NotAZone").err().unwrap();
    assert!(matches!(err, ValidationError::InvalidZone { .. }));
    assert_eq!(
        err.message(),
        "Invalid timezone: 'NotAZone'. Please use a valid IANA timezone name (e.g., 'America/New_York')."
    );
}

#[test]
fn offset_literal_message_suggests_iana_equivalent() {
    let plain = parse_timezone("+05:30").err().unwrap().message();
    assert_eq!(
        plain,
        "Timezone offset '+05:30' is not supported. Please use a valid IANA timezone name (e.g., 'Asia/Kolkata' instead of '+05:30')."
    );
    let named = parse_timezone("UTC+5").err().unwrap().message();
    assert_eq!(
        named,
        "Timezone offset 'UTC+5' is not supported. Please use a valid IANA timezone name (e.g., 'Asia/Kolkata' instead of 'UTC+5:30')."
    );
}

#[test]
fn nonexistent_civil_time_message_names_time_and_zone() {
    let err = ValidationError::NonexistentCivilTime {
        time: "02:30".to_string(),
        zone: "America/New_York".to_string(),
    };
    assert_eq!(
        err.message(),
        "The time 02:30 does not exist in timezone 'America/New_York' due to a DST transition (spring forward). Please choose a different time."
    );
}

#[test]
fn build_current_time_result_renders_exact_timestamp() {
    let f = ZonedFields {
        year: 2024,
        month: 3,
        day: 9,
        hour: 7,
        minute: 5,
        second: 0,
        offset_seconds: 20700,
        is_dst: false,
    };
    let c = build_current_time_result("Asia/Kathmandu".to_string(), &f);
    assert_eq!(c.timezone, "Asia/Kathmandu");
    assert_eq!(c.datetime, "2024-03-09T07:05:00+05:45");
    assert_eq!(c.utc_offset, "+05:45");
    assert!(!c.is_dst);
}

#[test]
fn build_current_time_result_renders_negative_years_and_offsets() {
    let f = ZonedFields {
        year: -44,
        month: 12,
        day: 31,
        hour: 23,
        minute: 59,
        second: 58,
        offset_seconds: -18000,
        is_dst: true,
    };
    let c = build_current_time_result("X".to_string(), &f);
    assert_eq!(c.datetime, "-0044-12-31T23:59:58-05:00");
    assert_eq!(c.utc_offset, "-05:00");
    assert!(c.is_dst);
}

#[test]
fn current_time_datetime_has_iso_shape() {
    let params = GetCurrentTimeParams { timezone: Some("UTC".to_string()) };
    let result = get_current_time(&params).unwrap();
    let dt = result.datetime.as_bytes();
    assert_eq!(dt.len(), 25);
    assert_eq!(dt[4], b'-');
    assert_eq!(dt[7], b'-');
    assert_eq!(dt[10], b'T');
    assert_eq!(dt[13], b':');
    assert_eq!(dt[16], b':');
    assert_eq!(dt[19], b'+');
    assert_eq!(dt[22], b':');
    assert_eq!(result.utc_offset, "+00:00");
}

#[test]
fn convert_time_source_is_validated_before_target() {
    let params = ConvertTimeParams {
        source_timezone: "+02:00".to_string(),
        time: "oops".to_string(),
        target_timezone: "-03:00".to_string(),
    };
    let err = convert_time(&params).err().unwrap();
    let msg = err.message();
    assert!(msg.contains("+02:00"), "source error expected, got: {msg}");
}

#[test]
fn convert_time_utc_to_utc_has_zero_difference() {
    let params = ConvertTimeParams {
        source_timezone: "UTC".to_string(),
        time: "12:00".to_string(),
        target_timezone: "UTC".to_string(),
    };
    let result = convert_time(&params).unwrap();
    assert_eq!(result.time_difference, "+0:00");
    assert_eq!(result.source.utc_offset, "+00:00");
    assert_eq!(result.target.utc_offset, "+00:00");
    assert!(result.source.datetime.contains("12:00:00"));
}

#[test]
fn convert_time_round_trips_through_zones_without_dst() {
    for zone in ["Asia/Tokyo", "Asia/Kathmandu", "Pacific/Honolulu"] {
        let out = convert_time(&ConvertTimeParams {
            source_timezone: "UTC".to_string(),
            time: "12:00".to_string(),
            target_timezone: zone.to_string(),
        })
        .unwrap();
        // wall-clock HH:MM of the instant in the intermediate zone
        let wall = &out.target.datetime[11..16];
        let back = convert_time(&ConvertTimeParams {
            source_timezone: zone.to_string(),
            time: wall.to_string(),
            target_timezone: "UTC".to_string(),
        })
        .unwrap();
        assert_eq!(back.target.utc_offset, "+00:00", "round trip via {zone}");
        assert!(back.target.datetime.contains("12:00:00"), "round trip via {zone}");
    }
}

#[test]
fn convert_time_kathmandu_difference_is_fractional() {
    let result = convert_time(&ConvertTimeParams {
        source_timezone: "UTC".to_string(),
        time: "06:15".to_string(),
        target_timezone: "Asia/Kathmandu".to_string(),
    })
    .unwrap();
    assert_eq!(result.time_difference, "+5:45");
    assert_eq!(result.target.utc_offset, "+05:45");
    assert!(result.target.datetime.contains("12:00:00"));
}
