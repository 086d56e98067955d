use mcp_time::convert_time;
use mcp_time::format_utc_offset;
use mcp_time::get_current_time;
use mcp_time::parse_timezone;
use mcp_time::ConvertTimeParams;
use mcp_time::GetCurrentTimeParams;

#[test]
fn parse_timezone_returns_ok_for_valid_iana_name() {
    let result = parse_timezone("America/New_York");
    assert!(result.is_ok());
}

#[test]
fn parse_timezone_returns_err_for_invalid_name() {
    let result = parse_timezone("Fake/Zone");
    assert!(result.is_err());
}

#[test]
fn parse_timezone_returns_err_for_abbreviation() {
    let result = parse_timezone("PST");
    let err = result.err().unwrap().message();
    assert!(err.contains("IANA timezone name"), "Error was: {err}");
}

#[test]
fn parse_timezone_returns_err_for_offset_string() {
    let result = parse_timezone("+05:30");
    let err = result.err().unwrap().message();
    assert!(err.contains("IANA timezone name"), "Error was: {err}");
}

#[test]
fn format_utc_offset_formats_positive_whole_hours() {
    assert_eq!(format_utc_offset(5 * 3600), "+05:00");
}

#[test]
fn format_utc_offset_formats_negative_whole_hours() {
    assert_eq!(format_utc_offset(-5 * 3600), "-05:00");
}

#[test]
fn format_utc_offset_formats_fractional_hours() {
    // +05:45 for Asia/Kathmandu
    assert_eq!(format_utc_offset(5 * 3600 + 45 * 60), "+05:45");
}

#[test]
fn format_utc_offset_formats_zero_as_positive() {
    assert_eq!(format_utc_offset(0), "+00:00");
}

#[test]
fn get_current_time_defaults_to_utc_when_no_timezone() {
    let params = GetCurrentTimeParams { timezone: None };
    let result = get_current_time(&params).unwrap();
    assert_eq!(result.timezone, "UTC");
}

#[test]
fn get_current_time_defaults_to_utc_for_empty_string() {
    let params = GetCurrentTimeParams { timezone: Some(String::new()) };
    let result = get_current_time(&params).unwrap();
    assert_eq!(result.timezone, "UTC");
}

#[test]
fn get_current_time_returns_valid_response_for_known_timezone() {
    let params = GetCurrentTimeParams { timezone: Some("America/New_York".to_string()) };
    let result = get_current_time(&params).unwrap();
    assert_eq!(result.timezone, "America/New_York");
    assert!(!result.datetime.is_empty());
    assert!(result.utc_offset.starts_with('+') || result.utc_offset.starts_with('-'));
}

#[test]
fn get_current_time_returns_error_for_invalid_timezone() {
    let params = GetCurrentTimeParams { timezone: Some("Not/A/Timezone".to_string()) };
    let result = get_current_time(&params);
    let err = result.err().unwrap().message();
    assert!(err.contains("Invalid timezone"));
}

#[test]
fn get_current_time_returns_fractional_offset_for_kathmandu() {
    let params = GetCurrentTimeParams { timezone: Some("Asia/Kathmandu".to_string()) };
    let result = get_current_time(&params).unwrap();
    assert_eq!(result.utc_offset, "+05:45");
}

#[test]
fn convert_time_converts_utc_to_new_york() {
    let params = ConvertTimeParams {
        source_timezone: "UTC".to_string(),
        time: "12:00".to_string(),
        target_timezone: "America/New_York".to_string(),
    };
    let result = convert_time(&params).unwrap();
    assert_eq!(result.source.timezone, "UTC");
    assert_eq!(result.target.timezone, "America/New_York");
    // NY is UTC-5 or UTC-4 depending on DST
    let target_dt = &result.target.datetime;
    assert!(
        target_dt.contains("07:00") || target_dt.contains("08:00"),
        "Expected 07:00 or 08:00 but got: {target_dt}"
    );
}

#[test]
fn convert_time_returns_error_for_invalid_time_format() {
    let params = ConvertTimeParams {
        source_timezone: "UTC".to_string(),
        time: "25:99".to_string(),
        target_timezone: "America/New_York".to_string(),
    };
    let err = convert_time(&params).err().unwrap().message();
    assert!(err.contains("Invalid time format"));
}

#[test]
fn convert_time_returns_error_for_invalid_source_timezone() {
    let params = ConvertTimeParams {
        source_timezone: "Bad/Zone".to_string(),
        time: "12:00".to_string(),
        target_timezone: "UTC".to_string(),
    };
    let err = convert_time(&params).err().unwrap().message();
    assert!(err.contains("Invalid timezone"));
}

#[test]
fn convert_time_trims_whitespace_from_time_input() {
    let params = ConvertTimeParams {
        source_timezone: "UTC".to_string(),
        time: "  14:30  ".to_string(),
        target_timezone: "UTC".to_string(),
    };
    assert!(convert_time(&params).is_ok());
}

#[test]
fn convert_time_rejects_24_00() {
    let params = ConvertTimeParams {
        source_timezone: "UTC".to_string(),
        time: "24:00".to_string(),
        target_timezone: "UTC".to_string(),
    };
    let err = convert_time(&params).err().unwrap().message();
    assert!(err.contains("Invalid time format"));
}

#[test]
fn convert_time_rejects_time_with_seconds() {
    let params = ConvertTimeParams {
        source_timezone: "UTC".to_string(),
        time: "14:30:00".to_string(),
        target_timezone: "UTC".to_string(),
    };
    let err = convert_time(&params).err().unwrap().message();
    assert!(err.contains("Invalid time format"));
}
