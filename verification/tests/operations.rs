use friendly_span::options::{FriendlyError, OptionField, Options};
use friendly_span::{diff, duration, list_time_zones};

fn verbose_options() -> Options {
    Options {
        spacing: "between-units-and-designators".to_string(),
        comma_after_designator: false,
        designator: "verbose".to_string(),
        hours_minutes_seconds: false,
        fractional_unit: None,
        padding: 0,
        zero_unit: "year".to_string(),
        direction: "auto".to_string(),
    }
}

fn compact_options() -> Options {
    Options {
        spacing: "none".to_string(),
        comma_after_designator: false,
        designator: "compact".to_string(),
        hours_minutes_seconds: false,
        fractional_unit: None,
        padding: 0,
        zero_unit: "second".to_string(),
        direction: "auto".to_string(),
    }
}

#[test]
fn diff_reports_year_scale_difference() {
    let out = diff(
        "2024-01-01T00:00:00",
        "UTC",
        "2025-03-15T00:00:00",
        "UTC",
        verbose_options(),
    )
    .unwrap();
    assert_eq!(out, "1 year 2 months 14 days");
}

#[test]
fn diff_rejects_unresolvable_time_zone() {
    let e = diff(
        "2024-01-01T00:00:00",
        "Not/AZone",
        "2025-03-15T00:00:00",
        "UTC",
        verbose_options(),
    )
    .unwrap_err();
    assert!(matches!(e, FriendlyError::UnknownTimeZone(ref name) if name == "Not/AZone"));
    assert!(e.message().contains("Not/AZone"));
}

#[test]
fn diff_rejects_malformed_date_time() {
    let e = diff("yesterday", "UTC", "2025-03-15T00:00:00", "UTC", verbose_options()).unwrap_err();
    assert!(matches!(e, FriendlyError::ParseFailure(_)));
}

#[test]
fn diff_rejects_invalid_options_first() {
    let mut o = verbose_options();
    o.spacing = "wide".to_string();
    let e = diff("not-a-date", "Not/AZone", "also-not-a-date", "Not/AZone", o).unwrap_err();
    assert!(matches!(
        e,
        FriendlyError::InvalidOption { field: OptionField::Spacing, ref value } if value == "wide"
    ));
}

#[test]
fn duration_renders_one_year() {
    let out = duration("P1Y", None, verbose_options()).unwrap();
    assert_eq!(out, "1 year");
}

#[test]
fn duration_renders_year_designator_in_configured_style() {
    let mut o = compact_options();
    o.designator = "short".to_string();
    o.spacing = "between-units".to_string();
    let out = duration("P1Y", None, o).unwrap();
    assert_eq!(out, "1yr");
    let compact = duration("P1Y", None, compact_options()).unwrap();
    assert_eq!(compact, "1y");
}

#[test]
fn duration_renders_zero_with_configured_zero_unit() {
    let mut o = verbose_options();
    o.zero_unit = "hour".to_string();
    let out = duration("PT0S", None, o).unwrap();
    assert!(out.contains("hour"));
    assert!(!out.contains("year"));
}

#[test]
fn duration_rounds_against_relative_date() {
    let out = duration("P1M", Some("2024-02-01".to_string()), verbose_options()).unwrap();
    assert_eq!(out, "1 month");
}

#[test]
fn duration_resolves_month_length_at_the_anchor() {
    let in_february = duration("PT720H", Some("2024-02-01".to_string()), verbose_options())
        .unwrap();
    let in_march = duration("PT720H", Some("2024-03-01".to_string()), verbose_options()).unwrap();
    assert_ne!(in_february, in_march);
    assert!(in_february.contains("month"));
}

#[test]
fn duration_is_idempotent() {
    let first = duration("P1Y2M3DT4H5M6S", Some("2024-02-01".to_string()), verbose_options())
        .unwrap();
    let second = duration("P1Y2M3DT4H5M6S", Some("2024-02-01".to_string()), verbose_options())
        .unwrap();
    assert_eq!(first, second);
    let third = duration("PT90061S", None, compact_options()).unwrap();
    let fourth = duration("PT90061S", None, compact_options()).unwrap();
    assert_eq!(third, fourth);
}

#[test]
fn duration_rejects_malformed_span() {
    let e = duration("one year", None, verbose_options()).unwrap_err();
    assert!(matches!(e, FriendlyError::ParseFailure(_)));
}

#[test]
fn duration_rejects_malformed_relative_date() {
    let e = duration("P1Y", Some("the first of May".to_string()), verbose_options()).unwrap_err();
    assert!(matches!(e, FriendlyError::ParseFailure(_)));
}

#[test]
fn duration_reports_rounding_overflow() {
    let e = duration("P19998Y", Some("9999-01-01".to_string()), verbose_options()).unwrap_err();
    assert!(matches!(e, FriendlyError::ArithmeticFailure(_)));
}

#[test]
fn duration_honours_compact_designators_and_no_spacing() {
    let out = duration("P1Y2M", None, compact_options()).unwrap();
    assert_eq!(out, "1y2mo");
}

#[test]
fn duration_honours_padding() {
    let mut o = compact_options();
    o.padding = 3;
    let out = duration("PT5M", None, o).unwrap();
    assert_eq!(out, "005m");
}

#[test]
fn duration_honours_hours_minutes_seconds() {
    let mut o = compact_options();
    o.hours_minutes_seconds = true;
    o.padding = 2;
    let out = duration("PT1H2M3S", None, o).unwrap();
    assert_eq!(out, "01:02:03");
}

#[test]
fn duration_honours_comma_after_designator() {
    let mut o = verbose_options();
    o.comma_after_designator = true;
    let out = duration("P1Y2M", None, o).unwrap();
    assert_eq!(out, "1 year, 2 months");
}

#[test]
fn duration_honours_direction_suffix() {
    let mut o = verbose_options();
    o.direction = "suffix".to_string();
    let out = duration("-P1Y", None, o).unwrap();
    assert_eq!(out, "1 year ago");
}

#[test]
fn duration_honours_force_sign() {
    let mut o = verbose_options();
    o.direction = "force-sign".to_string();
    let out = duration("P1Y", None, o).unwrap();
    assert!(out.starts_with('+'));
}

#[test]
fn duration_honours_fractional_unit() {
    let mut o = compact_options();
    o.fractional_unit = Some("hour".to_string());
    let out = duration("PT1H30M", None, o).unwrap();
    assert_eq!(out, "1.5h");
}

#[test]
fn duration_rejects_invalid_options_before_parsing() {
    let mut o = verbose_options();
    o.zero_unit = "century".to_string();
    let e = duration("not a span", None, o).unwrap_err();
    assert!(matches!(
        e,
        FriendlyError::InvalidOption { field: OptionField::ZeroUnit, ref value }
            if value == "century"
    ));
}

#[test]
fn list_time_zones_contains_utc() {
    let zones = list_time_zones();
    assert!(!zones.is_empty());
    assert!(zones.iter().any(|z| z == "UTC"));
}
