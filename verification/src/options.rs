//! The user-facing configuration and its validated translation.
//!
//! Callers hand over an [`Options`] value whose enumerated fields are plain
//! strings. Translation matches each string against its closed set of
//! recognized values, in field declaration order, and either produces a
//! [`PrinterConfig`] or fails on the first unrecognized field with an error
//! that names the field and carries the offending value verbatim.

use vstd::prelude::*;
use vstd::string::StringExecFns;

verus! {

/// How numeric values, designators, and separators are spaced.
#[derive(Clone, Copy, PartialEq, Eq, Debug, Structural)]
pub enum Spacing {
    NoSpacing,
    BetweenUnitsAndDesignators,
    BetweenUnits,
}

/// The style of the textual label attached to each unit value.
#[derive(Clone, Copy, PartialEq, Eq, Debug, Structural)]
pub enum Designator {
    Short,
    Compact,
    Verbose,
    HumanTime,
}

/// The unit that may carry a fractional remainder instead of cascading to
/// finer units.
#[derive(Clone, Copy, PartialEq, Eq, Debug, Structural)]
pub enum FractionalUnit {
    Hour,
    Minute,
    Second,
    Millisecond,
    Microsecond,
}

/// A calendar or clock unit, from years down to nanoseconds.
#[derive(Clone, Copy, PartialEq, Eq, Debug, Structural)]
pub enum Unit {
    Year,
    Month,
    Week,
    Day,
    Hour,
    Minute,
    Second,
    Millisecond,
    Microsecond,
    Nanosecond,
}

/// How and when the sign or direction of a span is written.
#[derive(Clone, Copy, PartialEq, Eq, Debug, Structural)]
pub enum Direction {
    Auto,
    Sign,
    Suffix,
    ForceSign,
}

/// The enumerated configuration fields that validation can reject.
#[derive(Clone, Copy, PartialEq, Eq, Debug, Structural)]
pub enum OptionField {
    Spacing,
    Designator,
    FractionalUnit,
    ZeroUnit,
    Direction,
}

/// The loosely typed configuration as it arrives from an untyped caller.
///
/// Every field is required except `fractional_unit`; an absent
/// `fractional_unit` means "no fractional rendering".
#[derive(Clone, Debug)]
pub struct Options {
    /// How units and designators are spaced: `none`,
    /// `between-units-and-designators`, or `between-units`.
    pub spacing: String,
    /// Whether a comma is written after each unit's designator.
    pub comma_after_designator: bool,
    /// The designator style: `short`, `compact`, `verbose`, or `human-time`.
    pub designator: String,
    /// Whether hours, minutes, and seconds are written as one `HH:MM:SS`
    /// field instead of separate designated units.
    pub hours_minutes_seconds: bool,
    /// The unit allowed to carry a fractional remainder: `hour`, `minute`,
    /// `second`, `millisecond`, or `microsecond`.
    pub fractional_unit: Option<String>,
    /// The minimum digit width for each numeric unit value.
    pub padding: u8,
    /// The unit used when the span is exactly zero: one of the ten units
    /// `year` through `nanosecond`.
    pub zero_unit: String,
    /// Sign placement: `auto`, `sign`, `suffix`, or `force-sign`.
    pub direction: String,
}

/// The validated, immutable formatter configuration.
#[derive(Clone, Copy, PartialEq, Eq, Debug)]
#[verifier::ext_equal]
pub struct PrinterConfig {
    pub spacing: Spacing,
    pub comma_after_designator: bool,
    pub designator: Designator,
    pub hours_minutes_seconds: bool,
    pub fractional_unit: Option<FractionalUnit>,
    pub padding: u8,
    pub zero_unit: Unit,
    pub direction: Direction,
}

/// Why a call failed. Every failure is terminal for the call; no partial
/// output is produced and no default is substituted.
#[derive(Clone, PartialEq, Eq, Debug)]
pub enum FriendlyError {
    /// An enumerated configuration field did not match its closed value set.
    InvalidOption { field: OptionField, value: String },
    /// Date-time, date, or span text did not conform to its grammar.
    ParseFailure(String),
    /// A time zone identifier is not present in the bound database.
    UnknownTimeZone(String),
    /// A computed span left the representable range, or rounding could not
    /// produce a value.
    ArithmeticFailure(String),
}

/// Recognized spellings of the spacing choice.
pub open spec fn spacing_of(s: Seq<char>) -> Option<Spacing> {
    if s == "none"@ {
        Some(Spacing::NoSpacing)
    } else if s == "between-units-and-designators"@ {
        Some(Spacing::BetweenUnitsAndDesignators)
    } else if s == "between-units"@ {
        Some(Spacing::BetweenUnits)
    } else {
        None
    }
}

/// Recognized spellings of the designator style.
pub open spec fn designator_of(s: Seq<char>) -> Option<Designator> {
    if s == "short"@ {
        Some(Designator::Short)
    } else if s == "compact"@ {
        Some(Designator::Compact)
    } else if s == "verbose"@ {
        Some(Designator::Verbose)
    } else if s == "human-time"@ {
        Some(Designator::HumanTime)
    } else {
        None
    }
}

/// Recognized spellings of the fractional unit.
pub open spec fn fractional_unit_of(s: Seq<char>) -> Option<FractionalUnit> {
    if s == "hour"@ {
        Some(FractionalUnit::Hour)
    } else if s == "minute"@ {
        Some(FractionalUnit::Minute)
    } else if s == "second"@ {
        Some(FractionalUnit::Second)
    } else if s == "millisecond"@ {
        Some(FractionalUnit::Millisecond)
    } else if s == "microsecond"@ {
        Some(FractionalUnit::Microsecond)
    } else {
        None
    }
}

/// Recognized spellings of a calendar or clock unit.
pub open spec fn unit_of(s: Seq<char>) -> Option<Unit> {
    if s == "year"@ {
        Some(Unit::Year)
    } else if s == "month"@ {
        Some(Unit::Month)
    } else if s == "week"@ {
        Some(Unit::Week)
    } else if s == "day"@ {
        Some(Unit::Day)
    } else if s == "hour"@ {
        Some(Unit::Hour)
    } else if s == "minute"@ {
        Some(Unit::Minute)
    } else if s == "second"@ {
        Some(Unit::Second)
    } else if s == "millisecond"@ {
        Some(Unit::Millisecond)
    } else if s == "microsecond"@ {
        Some(Unit::Microsecond)
    } else if s == "nanosecond"@ {
        Some(Unit::Nanosecond)
    } else {
        None
    }
}

/// Recognized spellings of the direction choice.
pub open spec fn direction_of(s: Seq<char>) -> Option<Direction> {
    if s == "auto"@ {
        Some(Direction::Auto)
    } else if s == "sign"@ {
        Some(Direction::Sign)
    } else if s == "suffix"@ {
        Some(Direction::Suffix)
    } else if s == "force-sign"@ {
        Some(Direction::ForceSign)
    } else {
        None
    }
}

/// What translation returns for a given configuration: the configuration with
/// every choice decoded, or the first invalid field in declaration order.
pub open spec fn translate_spec(o: Options) -> Result<PrinterConfig, FriendlyError> {
    if spacing_of(o.spacing@) is None {
        Err(FriendlyError::InvalidOption { field: OptionField::Spacing, value: o.spacing })
    } else if designator_of(o.designator@) is None {
        Err(FriendlyError::InvalidOption { field: OptionField::Designator, value: o.designator })
    } else if o.fractional_unit is Some && fractional_unit_of((o.fractional_unit->0)@) is None {
        Err(
            FriendlyError::InvalidOption {
                field: OptionField::FractionalUnit,
                value: o.fractional_unit->0,
            },
        )
    } else if unit_of(o.zero_unit@) is None {
        Err(FriendlyError::InvalidOption { field: OptionField::ZeroUnit, value: o.zero_unit })
    } else if direction_of(o.direction@) is None {
        Err(FriendlyError::InvalidOption { field: OptionField::Direction, value: o.direction })
    } else {
        Ok(
            PrinterConfig {
                spacing: spacing_of(o.spacing@)->0,
                comma_after_designator: o.comma_after_designator,
                designator: designator_of(o.designator@)->0,
                hours_minutes_seconds: o.hours_minutes_seconds,
                fractional_unit: if o.fractional_unit is Some {
                    Some(fractional_unit_of((o.fractional_unit->0)@)->0)
                } else {
                    None
                },
                padding: o.padding,
                zero_unit: unit_of(o.zero_unit@)->0,
                direction: direction_of(o.direction@)->0,
            },
        )
    }
}

/// Relies on `str`'s `PartialEq`: two string slices are equal exactly when
/// their character sequences are equal.
#[verifier::external_body]
fn str_eq(a: &str, b: &str) -> (r: bool)
    ensures
        r == (a@ == b@),
{
    a == b
}

fn spacing_from(s: &str) -> (r: Option<Spacing>)
    ensures
        r == spacing_of(s@),
{
    if str_eq(s, "none") {
        Some(Spacing::NoSpacing)
    } else if str_eq(s, "between-units-and-designators") {
        Some(Spacing::BetweenUnitsAndDesignators)
    } else if str_eq(s, "between-units") {
        Some(Spacing::BetweenUnits)
    } else {
        None
    }
}

fn designator_from(s: &str) -> (r: Option<Designator>)
    ensures
        r == designator_of(s@),
{
    if str_eq(s, "short") {
        Some(Designator::Short)
    } else if str_eq(s, "compact") {
        Some(Designator::Compact)
    } else if str_eq(s, "verbose") {
        Some(Designator::Verbose)
    } else if str_eq(s, "human-time") {
        Some(Designator::HumanTime)
    } else {
        None
    }
}

fn fractional_unit_from(s: &str) -> (r: Option<FractionalUnit>)
    ensures
        r == fractional_unit_of(s@),
{
    if str_eq(s, "hour") {
        Some(FractionalUnit::Hour)
    } else if str_eq(s, "minute") {
        Some(FractionalUnit::Minute)
    } else if str_eq(s, "second") {
        Some(FractionalUnit::Second)
    } else if str_eq(s, "millisecond") {
        Some(FractionalUnit::Millisecond)
    } else if str_eq(s, "microsecond") {
        Some(FractionalUnit::Microsecond)
    } else {
        None
    }
}

fn unit_from(s: &str) -> (r: Option<Unit>)
    ensures
        r == unit_of(s@),
{
    if str_eq(s, "year") {
        Some(Unit::Year)
    } else if str_eq(s, "month") {
        Some(Unit::Month)
    } else if str_eq(s, "week") {
        Some(Unit::Week)
    } else if str_eq(s, "day") {
        Some(Unit::Day)
    } else if str_eq(s, "hour") {
        Some(Unit::Hour)
    } else if str_eq(s, "minute") {
        Some(Unit::Minute)
    } else if str_eq(s, "second") {
        Some(Unit::Second)
    } else if str_eq(s, "millisecond") {
        Some(Unit::Millisecond)
    } else if str_eq(s, "microsecond") {
        Some(Unit::Microsecond)
    } else if str_eq(s, "nanosecond") {
        Some(Unit::Nanosecond)
    } else {
        None
    }
}

fn direction_from(s: &str) -> (r: Option<Direction>)
    ensures
        r == direction_of(s@),
{
    if str_eq(s, "auto") {
        Some(Direction::Auto)
    } else if str_eq(s, "sign") {
        Some(Direction::Sign)
    } else if str_eq(s, "suffix") {
        Some(Direction::Suffix)
    } else if str_eq(s, "force-sign") {
        Some(Direction::ForceSign)
    } else {
        None
    }
}

/// Validate every enumerated field of `o` against its closed set, in field
/// declaration order, and decode the first failure into an error that names
/// the field and carries the offending value.
pub fn translate_options(o: &Options) -> (r: Result<PrinterConfig, FriendlyError>)
    ensures
        r == translate_spec(*o),
{
    let spacing = match spacing_from(o.spacing.as_str()) {
        Some(v) => v,
        None => {
            return Err(
                FriendlyError::InvalidOption {
                    field: OptionField::Spacing,
                    value: o.spacing.clone(),
                },
            );
        },
    };
    let designator = match designator_from(o.designator.as_str()) {
        Some(v) => v,
        None => {
            return Err(
                FriendlyError::InvalidOption {
                    field: OptionField::Designator,
                    value: o.designator.clone(),
                },
            );
        },
    };
    let fractional_unit = match &o.fractional_unit {
        None => None,
        Some(f) => match fractional_unit_from(f.as_str()) {
            Some(v) => Some(v),
            None => {
                return Err(
                    FriendlyError::InvalidOption {
                        field: OptionField::FractionalUnit,
                        value: f.clone(),
                    },
                );
            },
        },
    };
    let zero_unit = match unit_from(o.zero_unit.as_str()) {
        Some(v) => v,
        None => {
            return Err(
                FriendlyError::InvalidOption {
                    field: OptionField::ZeroUnit,
                    value: o.zero_unit.clone(),
                },
            );
        },
    };
    let direction = match direction_from(o.direction.as_str()) {
        Some(v) => v,
        None => {
            return Err(
                FriendlyError::InvalidOption {
                    field: OptionField::Direction,
                    value: o.direction.clone(),
                },
            );
        },
    };
    Ok(
        PrinterConfig {
            spacing,
            comma_after_designator: o.comma_after_designator,
            designator,
            hours_minutes_seconds: o.hours_minutes_seconds,
            fractional_unit,
            padding: o.padding,
            zero_unit,
            direction,
        },
    )
}

/// The label that an invalid-option message opens with, per field.
pub open spec fn field_label_spec(f: OptionField) -> Seq<char> {
    match f {
        OptionField::Spacing => "Invalid spacing option: "@,
        OptionField::Designator => "Invalid designator option: "@,
        OptionField::FractionalUnit => "Invalid fractional unit: "@,
        OptionField::ZeroUnit => "Invalid zero unit: "@,
        OptionField::Direction => "Invalid direction: "@,
    }
}

/// The human-readable message of each error.
pub open spec fn message_spec(e: FriendlyError) -> Seq<char> {
    match e {
        FriendlyError::InvalidOption { field, value } => field_label_spec(field) + value@,
        FriendlyError::ParseFailure(detail) => "Parse failure: "@ + detail@,
        FriendlyError::UnknownTimeZone(name) => "Unknown time zone: "@ + name@,
        FriendlyError::ArithmeticFailure(detail) => "Arithmetic failure: "@ + detail@,
    }
}

fn field_label(f: OptionField) -> (r: String)
    ensures
        r@ == field_label_spec(f),
{
    match f {
        OptionField::Spacing => "Invalid spacing option: ".to_owned(),
        OptionField::Designator => "Invalid designator option: ".to_owned(),
        OptionField::FractionalUnit => "Invalid fractional unit: ".to_owned(),
        OptionField::ZeroUnit => "Invalid zero unit: ".to_owned(),
        OptionField::Direction => "Invalid direction: ".to_owned(),
    }
}

impl FriendlyError {
    /// Render the error as descriptive text.
    pub fn message(&self) -> (r: String)
        ensures
            r@ == message_spec(*self),
    {
        match self {
            FriendlyError::InvalidOption { field, value } => {
                let mut m = field_label(*field);
                m.append(value.as_str());
                m
            },
            FriendlyError::ParseFailure(detail) => {
                let mut m = "Parse failure: ".to_owned();
                m.append(detail.as_str());
                m
            },
            FriendlyError::UnknownTimeZone(name) => {
                let mut m = "Unknown time zone: ".to_owned();
                m.append(name.as_str());
                m
            },
            FriendlyError::ArithmeticFailure(detail) => {
                let mut m = "Arithmetic failure: ".to_owned();
                m.append(detail.as_str());
                m
            },
        }
    }
}

/// Law: when every enumerated field is one of its documented allowed values,
/// translation succeeds and the configuration carries those exact choices.
pub proof fn lemma_translate_preserves_valid_options(o: Options)
    requires
        spacing_of(o.spacing@) is Some,
        designator_of(o.designator@) is Some,
        o.fractional_unit is Some ==> fractional_unit_of((o.fractional_unit->0)@) is Some,
        unit_of(o.zero_unit@) is Some,
        direction_of(o.direction@) is Some,
    ensures
        translate_spec(o) is Ok,
        translate_spec(o)->Ok_0.spacing == spacing_of(o.spacing@)->0,
        translate_spec(o)->Ok_0.comma_after_designator == o.comma_after_designator,
        translate_spec(o)->Ok_0.designator == designator_of(o.designator@)->0,
        translate_spec(o)->Ok_0.hours_minutes_seconds == o.hours_minutes_seconds,
        o.fractional_unit is Some ==> translate_spec(o)->Ok_0.fractional_unit == Some(
            fractional_unit_of((o.fractional_unit->0)@)->0,
        ),
        o.fractional_unit is None ==> translate_spec(o)->Ok_0.fractional_unit
            == None::<FractionalUnit>,
        translate_spec(o)->Ok_0.padding == o.padding,
        translate_spec(o)->Ok_0.zero_unit == unit_of(o.zero_unit@)->0,
        translate_spec(o)->Ok_0.direction == direction_of(o.direction@)->0,
{
}

/// Law: the first field, in declaration order, whose value lies outside its
/// closed set fails the whole translation, and the error names that field and
/// carries the offending value verbatim.
pub proof fn lemma_translate_rejects_invalid_field(o: Options)
    ensures
        spacing_of(o.spacing@) is None ==> translate_spec(o) == Err::<
            PrinterConfig,
            FriendlyError,
        >(FriendlyError::InvalidOption { field: OptionField::Spacing, value: o.spacing }),
        spacing_of(o.spacing@) is Some && designator_of(o.designator@) is None ==> translate_spec(
            o,
        ) == Err::<PrinterConfig, FriendlyError>(
            FriendlyError::InvalidOption { field: OptionField::Designator, value: o.designator },
        ),
        spacing_of(o.spacing@) is Some && designator_of(o.designator@) is Some
            && o.fractional_unit is Some && fractional_unit_of((o.fractional_unit->0)@) is None
            ==> translate_spec(o) == Err::<PrinterConfig, FriendlyError>(
            FriendlyError::InvalidOption {
                field: OptionField::FractionalUnit,
                value: o.fractional_unit->0,
            },
        ),
        spacing_of(o.spacing@) is Some && designator_of(o.designator@) is Some && (
        o.fractional_unit is Some ==> fractional_unit_of((o.fractional_unit->0)@) is Some)
            && unit_of(o.zero_unit@) is None ==> translate_spec(o) == Err::<
            PrinterConfig,
            FriendlyError,
        >(FriendlyError::InvalidOption { field: OptionField::ZeroUnit, value: o.zero_unit }),
        spacing_of(o.spacing@) is Some && designator_of(o.designator@) is Some && (
        o.fractional_unit is Some ==> fractional_unit_of((o.fractional_unit->0)@) is Some)
            && unit_of(o.zero_unit@) is Some && direction_of(o.direction@) is None
            ==> translate_spec(o) == Err::<PrinterConfig, FriendlyError>(
            FriendlyError::InvalidOption { field: OptionField::Direction, value: o.direction },
        ),
{
}

/// Law: the message of an invalid-option error is the field's label followed
/// by the offending value itself, so the message always contains that value.
pub proof fn lemma_invalid_option_message(field: OptionField, value: String)
    ensures
        message_spec(FriendlyError::InvalidOption { field, value }) == field_label_spec(field)
            + value@,
        message_spec(FriendlyError::InvalidOption { field, value }).subrange(
            field_label_spec(field).len() as int,
            message_spec(FriendlyError::InvalidOption { field, value }).len() as int,
        ) =~= value@,
{
}

} // verus!
