use friendly_span::options::{
    translate_options, Designator, Direction, FractionalUnit, FriendlyError, OptionField, Options,
    Spacing, Unit,
};

fn base_options() -> Options {
    Options {
        spacing: "between-units-and-designators".to_string(),
        comma_after_designator: false,
        designator: "verbose".to_string(),
        hours_minutes_seconds: false,
        fractional_unit: None,
        padding: 0,
        zero_unit: "year".to_string(),
        direction: "auto".to_string(),
    }
}

#[test]
fn translate_accepts_every_spacing_value() {
    let cases = [
        ("none", Spacing::NoSpacing),
        ("between-units-and-designators", Spacing::BetweenUnitsAndDesignators),
        ("between-units", Spacing::BetweenUnits),
    ];
    for (text, expected) in cases {
        let mut o = base_options();
        o.spacing = text.to_string();
        let c = translate_options(&o).unwrap();
        assert_eq!(c.spacing, expected);
    }
}

#[test]
fn translate_accepts_every_designator_value() {
    let cases = [
        ("short", Designator::Short),
        ("compact", Designator::Compact),
        ("verbose", Designator::Verbose),
        ("human-time", Designator::HumanTime),
    ];
    for (text, expected) in cases {
        let mut o = base_options();
        o.designator = text.to_string();
        let c = translate_options(&o).unwrap();
        assert_eq!(c.designator, expected);
    }
}

#[test]
fn translate_accepts_every_fractional_unit_value() {
    let cases = [
        ("hour", FractionalUnit::Hour),
        ("minute", FractionalUnit::Minute),
        ("second", FractionalUnit::Second),
        ("millisecond", FractionalUnit::Millisecond),
        ("microsecond", FractionalUnit::Microsecond),
    ];
    for (text, expected) in cases {
        let mut o = base_options();
        o.fractional_unit = Some(text.to_string());
        let c = translate_options(&o).unwrap();
        assert_eq!(c.fractional_unit, Some(expected));
    }
    let o = base_options();
    let c = translate_options(&o).unwrap();
    assert_eq!(c.fractional_unit, None);
}

#[test]
fn translate_accepts_every_zero_unit_value() {
    let cases = [
        ("year", Unit::Year),
        ("month", Unit::Month),
        ("week", Unit::Week),
        ("day", Unit::Day),
        ("hour", Unit::Hour),
        ("minute", Unit::Minute),
        ("second", Unit::Second),
        ("millisecond", Unit::Millisecond),
        ("microsecond", Unit::Microsecond),
        ("nanosecond", Unit::Nanosecond),
    ];
    for (text, expected) in cases {
        let mut o = base_options();
        o.zero_unit = text.to_string();
        let c = translate_options(&o).unwrap();
        assert_eq!(c.zero_unit, expected);
    }
}

#[test]
fn translate_accepts_every_direction_value() {
    let cases = [
        ("auto", Direction::Auto),
        ("sign", Direction::Sign),
        ("suffix", Direction::Suffix),
        ("force-sign", Direction::ForceSign),
    ];
    for (text, expected) in cases {
        let mut o = base_options();
        o.direction = text.to_string();
        let c = translate_options(&o).unwrap();
        assert_eq!(c.direction, expected);
    }
}

#[test]
fn translate_preserves_plain_fields() {
    let mut o = base_options();
    o.comma_after_designator = true;
    o.hours_minutes_seconds = true;
    o.padding = 7;
    let c = translate_options(&o).unwrap();
    assert!(c.comma_after_designator);
    assert!(c.hours_minutes_seconds);
    assert_eq!(c.padding, 7);
}

#[test]
fn translate_rejects_unknown_spacing() {
    let mut o = base_options();
    o.spacing = "tight".to_string();
    let e = translate_options(&o).unwrap_err();
    assert!(matches!(
        e,
        FriendlyError::InvalidOption { field: OptionField::Spacing, ref value } if value == "tight"
    ));
    let msg = e.message();
    assert!(msg.contains("tight"));
    assert!(msg.contains("spacing"));
}

#[test]
fn translate_rejects_unknown_designator() {
    let mut o = base_options();
    o.designator = "loud".to_string();
    let e = translate_options(&o).unwrap_err();
    assert!(matches!(
        e,
        FriendlyError::InvalidOption { field: OptionField::Designator, ref value } if value == "loud"
    ));
    let msg = e.message();
    assert!(msg.contains("loud"));
    assert!(msg.contains("designator"));
}

#[test]
fn translate_rejects_unknown_fractional_unit() {
    let mut o = base_options();
    o.fractional_unit = Some("fortnight".to_string());
    let e = translate_options(&o).unwrap_err();
    assert!(matches!(
        e,
        FriendlyError::InvalidOption { field: OptionField::FractionalUnit, ref value }
            if value == "fortnight"
    ));
    let msg = e.message();
    assert!(msg.contains("fortnight"));
    assert!(msg.contains("fractional unit"));
}

#[test]
fn translate_rejects_unknown_zero_unit() {
    let mut o = base_options();
    o.zero_unit = "era".to_string();
    let e = translate_options(&o).unwrap_err();
    assert!(matches!(
        e,
        FriendlyError::InvalidOption { field: OptionField::ZeroUnit, ref value } if value == "era"
    ));
    let msg = e.message();
    assert!(msg.contains("era"));
    assert!(msg.contains("zero unit"));
}

#[test]
fn translate_rejects_unknown_direction() {
    let mut o = base_options();
    o.direction = "sideways".to_string();
    let e = translate_options(&o).unwrap_err();
    assert!(matches!(
        e,
        FriendlyError::InvalidOption { field: OptionField::Direction, ref value }
            if value == "sideways"
    ));
    let msg = e.message();
    assert!(msg.contains("sideways"));
    assert!(msg.contains("direction"));
}

#[test]
fn translate_reports_first_invalid_field_only() {
    let mut o = base_options();
    o.spacing = "bad-spacing".to_string();
    o.direction = "bad-direction".to_string();
    let e = translate_options(&o).unwrap_err();
    assert!(matches!(e, FriendlyError::InvalidOption { field: OptionField::Spacing, .. }));
}

#[test]
fn translate_is_case_sensitive() {
    let mut o = base_options();
    o.designator = "Verbose".to_string();
    let e = translate_options(&o).unwrap_err();
    assert!(matches!(e, FriendlyError::InvalidOption { field: OptionField::Designator, .. }));
}
