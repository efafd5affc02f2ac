//! The boundary to the `jiff` date/time engine.
//!
//! Every value the engine computes — parsed spans, civil date-times, zoned
//! instants, and formatted text — is opaque to the verifier. Results that are
//! functions of their arguments alone (parsing, calendar rounding, printing)
//! are given uninterpreted names, and an uninterpreted abstraction function
//! ties each opaque value to the name of the computation that produced it, so
//! the facade's contracts can pin the final text down as a function of the
//! call's inputs. Time zone resolution reads the machine's time zone
//! database, so nothing downstream of it is named.

use vstd::prelude::*;
use crate::options::{PrinterConfig, Spacing, Designator, FractionalUnit, Unit, Direction};

verus! {

#[verifier::external_type_specification]
#[verifier::external_body]
pub struct ExSpan(jiff::Span);

#[verifier::external_type_specification]
#[verifier::external_body]
pub struct ExSpanPrinter(jiff::fmt::friendly::SpanPrinter);

#[verifier::external_type_specification]
#[verifier::external_body]
pub struct ExDateTime(jiff::civil::DateTime);

#[verifier::external_type_specification]
#[verifier::external_body]
pub struct ExDate(jiff::civil::Date);

#[verifier::external_type_specification]
#[verifier::external_body]
pub struct ExZoned(jiff::Zoned);

#[verifier::external_type_specification]
#[verifier::external_body]
pub struct ExTimeZone(jiff::tz::TimeZone);

/// The abstract identity of an engine span value: equal identities stand for
/// equal span values.
pub uninterp spec fn span_id(s: jiff::Span) -> int;

/// The abstract identity of an engine civil date value: equal identities
/// stand for equal date values.
pub uninterp spec fn date_id(d: jiff::civil::Date) -> int;

/// The abstract identity of an engine civil date-time value: equal identities
/// stand for equal date-time values.
pub uninterp spec fn datetime_id(dt: jiff::civil::DateTime) -> int;

/// The abstract identity of an engine time zone value: equal identities stand
/// for equal time zone values.
pub uninterp spec fn tz_id(tz: jiff::tz::TimeZone) -> int;

/// The abstract identity of an engine zoned instant value: equal identities
/// stand for equal zoned values.
pub uninterp spec fn zoned_id(z: jiff::Zoned) -> int;

/// The configuration a printer value carries, one field per setting this
/// library exposes.
pub uninterp spec fn printer_config(p: jiff::fmt::friendly::SpanPrinter) -> PrinterConfig;

/// The identity of the span parsed from the given text, or `None` when the
/// text is not a well-formed span. Parsing is a function of the text alone.
pub uninterp spec fn parsed_span(s: Seq<char>) -> Option<int>;

/// The identity of the civil date parsed from the given text, or `None` when
/// the text is not a well-formed date. Parsing is a function of the text
/// alone.
pub uninterp spec fn parsed_date(s: Seq<char>) -> Option<int>;

/// The identity of the civil date-time parsed from the given text, or `None`
/// when the text is not a well-formed date-time. Parsing is a function of the
/// text alone.
pub uninterp spec fn parsed_datetime(s: Seq<char>) -> Option<int>;

/// The identity of the zoned instant that pairs the given civil date-time
/// with the given time zone, or `None` when the instant leaves the
/// representable range. The pairing is a function of the two values alone.
pub uninterp spec fn zoned_of(dt: int, tz: int) -> Option<int>;

/// The identity of the signed calendar span from the first zoned instant to
/// the second with years as its top unit, or `None` when the span leaves the
/// representable range. The span is a function of the two values alone.
pub uninterp spec fn until_years_of(start: int, end: int) -> Option<int>;

/// The identity of the span obtained by rounding the given span relative to
/// the given civil date with the largest unit capped at years, or `None` when
/// the result leaves the representable range. Rounding is a function of the
/// two values alone.
pub uninterp spec fn span_rounded(span: int, date: int) -> Option<int>;

/// The text that the friendly formatter writes for the given span under the
/// given configuration. Printing is a function of the two values alone.
pub uninterp spec fn friendly_text(cfg: PrinterConfig, span: int) -> Seq<char>;

/// Relies on `<jiff::Span as FromStr>::from_str`: parsing succeeds exactly
/// when the text is a well-formed span, and its value is a function of the
/// text alone.
#[verifier::external_body]
pub(crate) fn parse_span(s: &str) -> (r: Result<jiff::Span, String>)
    ensures
        (r is Ok) == (parsed_span(s@) is Some),
        r is Ok ==> span_id(r->Ok_0) == parsed_span(s@)->0,
{
    s.parse::<jiff::Span>().map_err(|e| e.to_string())
}

/// Relies on `<jiff::civil::Date as FromStr>::from_str`: parsing succeeds
/// exactly when the text is a well-formed civil date, and its value is a
/// function of the text alone.
#[verifier::external_body]
pub(crate) fn parse_date(s: &str) -> (r: Result<jiff::civil::Date, String>)
    ensures
        (r is Ok) == (parsed_date(s@) is Some),
        r is Ok ==> date_id(r->Ok_0) == parsed_date(s@)->0,
{
    s.parse::<jiff::civil::Date>().map_err(|e| e.to_string())
}

/// Relies on `<jiff::civil::DateTime as FromStr>::from_str`: parsing succeeds
/// exactly when the text is a well-formed civil date-time, and its value is a
/// function of the text alone.
#[verifier::external_body]
pub(crate) fn parse_datetime(s: &str) -> (r: Result<jiff::civil::DateTime, String>)
    ensures
        (r is Ok) == (parsed_datetime(s@) is Some),
        r is Ok ==> datetime_id(r->Ok_0) == parsed_datetime(s@)->0,
{
    s.parse::<jiff::civil::DateTime>().map_err(|e| e.to_string())
}

/// Relies on `jiff::tz::TimeZone::get`: it resolves a time zone identifier
/// against the bound database and fails when the identifier is not known.
/// The database is the machine's, so nothing more is stated.
#[verifier::external_body]
pub(crate) fn tz_lookup(name: &str) -> (r: Result<jiff::tz::TimeZone, String>) {
    jiff::tz::TimeZone::get(name).map_err(|e| e.to_string())
}

/// Relies on `jiff::civil::DateTime::to_zoned`: it pairs the civil date-time
/// with the resolved time zone, disambiguating wall-clock times that fall in
/// a transition, and fails only when the instant leaves the representable
/// range. The zoned instant is a function of the date-time and the time zone
/// alone.
#[verifier::external_body]
pub(crate) fn datetime_to_zoned(dt: jiff::civil::DateTime, tz: jiff::tz::TimeZone) -> (r: Result<
    jiff::Zoned,
    String,
>)
    ensures
        (r is Ok) == (zoned_of(datetime_id(dt), tz_id(tz)) is Some),
        r is Ok ==> zoned_id(r->Ok_0) == zoned_of(datetime_id(dt), tz_id(tz))->0,
{
    dt.to_zoned(tz).map_err(|e| e.to_string())
}

/// Relies on `jiff::Zoned::until` with the largest unit set to years: the
/// signed calendar span from `start` to `end`, computed with calendar-aware
/// subtraction in the instants' time zones; it fails only when the span
/// leaves the representable range. The span is a function of the two zoned
/// values alone.
#[verifier::external_body]
pub(crate) fn zoned_until_years(start: &jiff::Zoned, end: &jiff::Zoned) -> (r: Result<
    jiff::Span,
    String,
>)
    ensures
        (r is Ok) == (until_years_of(zoned_id(*start), zoned_id(*end)) is Some),
        r is Ok ==> span_id(r->Ok_0) == until_years_of(zoned_id(*start), zoned_id(*end))->0,
{
    start.until((jiff::Unit::Year, end)).map_err(|e| e.to_string())
}

/// Relies on `jiff::Span::round` with the largest unit capped at years:
/// rounding resolves variable-length units against the given relative date,
/// is a function of the span and the date alone, and fails only when the
/// result leaves the representable range.
#[verifier::external_body]
pub(crate) fn round_span_to_years(s: &jiff::Span, rel: &jiff::civil::Date) -> (r: Result<
    jiff::Span,
    String,
>)
    ensures
        (r is Ok) == (span_rounded(span_id(*s), date_id(*rel)) is Some),
        r is Ok ==> span_id(r->Ok_0) == span_rounded(span_id(*s), date_id(*rel))->0,
{
    let opts = jiff::SpanRound::new().relative(*rel).largest(jiff::Unit::Year);
    s.round(opts).map_err(|e| e.to_string())
}

/// Relies on `jiff::fmt::friendly::SpanPrinter::new`: a printer with every
/// setting at its default.
#[verifier::external_body]
fn printer_new() -> (r: jiff::fmt::friendly::SpanPrinter) {
    jiff::fmt::friendly::SpanPrinter::new()
}

/// Relies on `SpanPrinter::spacing`: it stores the given spacing choice and
/// changes nothing else.
#[verifier::external_body]
fn printer_spacing(p: jiff::fmt::friendly::SpanPrinter, v: Spacing) -> (r:
    jiff::fmt::friendly::SpanPrinter)
    ensures
        printer_config(r) == (PrinterConfig { spacing: v, ..printer_config(p) }),
{
    p.spacing(
        match v {
            Spacing::NoSpacing => jiff::fmt::friendly::Spacing::None,
            Spacing::BetweenUnitsAndDesignators => jiff::fmt::friendly::Spacing::BetweenUnitsAndDesignators,
            Spacing::BetweenUnits => jiff::fmt::friendly::Spacing::BetweenUnits,
        },
    )
}

/// Relies on `SpanPrinter::comma_after_designator`: it stores the given flag
/// and changes nothing else.
#[verifier::external_body]
fn printer_comma_after_designator(p: jiff::fmt::friendly::SpanPrinter, v: bool) -> (r:
    jiff::fmt::friendly::SpanPrinter)
    ensures
        printer_config(r) == (PrinterConfig { comma_after_designator: v, ..printer_config(p) }),
{
    p.comma_after_designator(v)
}

/// Relies on `SpanPrinter::designator`: it stores the given designator style
/// and changes nothing else.
#[verifier::external_body]
fn printer_designator(p: jiff::fmt::friendly::SpanPrinter, v: Designator) -> (r:
    jiff::fmt::friendly::SpanPrinter)
    ensures
        printer_config(r) == (PrinterConfig { designator: v, ..printer_config(p) }),
{
    p.designator(
        match v {
            Designator::Short => jiff::fmt::friendly::Designator::Short,
            Designator::Compact => jiff::fmt::friendly::Designator::Compact,
            Designator::Verbose => jiff::fmt::friendly::Designator::Verbose,
            Designator::HumanTime => jiff::fmt::friendly::Designator::HumanTime,
        },
    )
}

/// Relies on `SpanPrinter::hours_minutes_seconds`: it stores the given flag
/// and changes nothing else.
#[verifier::external_body]
fn printer_hours_minutes_seconds(p: jiff::fmt::friendly::SpanPrinter, v: bool) -> (r:
    jiff::fmt::friendly::SpanPrinter)
    ensures
        printer_config(r) == (PrinterConfig { hours_minutes_seconds: v, ..printer_config(p) }),
{
    p.hours_minutes_seconds(v)
}

/// Relies on `SpanPrinter::padding`: it stores the given digit width and
/// changes nothing else.
#[verifier::external_body]
fn printer_padding(p: jiff::fmt::friendly::SpanPrinter, v: u8) -> (r:
    jiff::fmt::friendly::SpanPrinter)
    ensures
        printer_config(r) == (PrinterConfig { padding: v, ..printer_config(p) }),
{
    p.padding(v)
}

/// Relies on `SpanPrinter::zero_unit`: it stores the unit used for a zero
/// span and changes nothing else.
#[verifier::external_body]
fn printer_zero_unit(p: jiff::fmt::friendly::SpanPrinter, v: Unit) -> (r:
    jiff::fmt::friendly::SpanPrinter)
    ensures
        printer_config(r) == (PrinterConfig { zero_unit: v, ..printer_config(p) }),
{
    p.zero_unit(
        match v {
            Unit::Year => jiff::Unit::Year,
            Unit::Month => jiff::Unit::Month,
            Unit::Week => jiff::Unit::Week,
            Unit::Day => jiff::Unit::Day,
            Unit::Hour => jiff::Unit::Hour,
            Unit::Minute => jiff::Unit::Minute,
            Unit::Second => jiff::Unit::Second,
            Unit::Millisecond => jiff::Unit::Millisecond,
            Unit::Microsecond => jiff::Unit::Microsecond,
            Unit::Nanosecond => jiff::Unit::Nanosecond,
        },
    )
}

/// Relies on `SpanPrinter::direction`: it stores the given sign placement and
/// changes nothing else.
#[verifier::external_body]
fn printer_direction(p: jiff::fmt::friendly::SpanPrinter, v: Direction) -> (r:
    jiff::fmt::friendly::SpanPrinter)
    ensures
        printer_config(r) == (PrinterConfig { direction: v, ..printer_config(p) }),
{
    p.direction(
        match v {
            Direction::Auto => jiff::fmt::friendly::Direction::Auto,
            Direction::Sign => jiff::fmt::friendly::Direction::Sign,
            Direction::Suffix => jiff::fmt::friendly::Direction::Suffix,
            Direction::ForceSign => jiff::fmt::friendly::Direction::ForceSign,
        },
    )
}

/// Relies on `SpanPrinter::fractional`: it stores the unit allowed to carry a
/// fraction, or switches fractions off, and changes nothing else.
#[verifier::external_body]
fn printer_fractional(p: jiff::fmt::friendly::SpanPrinter, v: Option<FractionalUnit>) -> (r:
    jiff::fmt::friendly::SpanPrinter)
    ensures
        printer_config(r) == (PrinterConfig { fractional_unit: v, ..printer_config(p) }),
{
    p.fractional(
        match v {
            None => None,
            Some(FractionalUnit::Hour) => Some(jiff::fmt::friendly::FractionalUnit::Hour),
            Some(FractionalUnit::Minute) => Some(jiff::fmt::friendly::FractionalUnit::Minute),
            Some(FractionalUnit::Second) => Some(jiff::fmt::friendly::FractionalUnit::Second),
            Some(FractionalUnit::Millisecond) => Some(
                jiff::fmt::friendly::FractionalUnit::Millisecond,
            ),
            Some(FractionalUnit::Microsecond) => Some(
                jiff::fmt::friendly::FractionalUnit::Microsecond,
            ),
        },
    )
}

/// Relies on `SpanPrinter::span_to_string`: the text written is a function of
/// the printer's settings and the span value alone. Every printer in this
/// crate comes from the builders above, which keep each setting outside the
/// library's configuration at its default, so the configuration determines
/// the printer's settings in full.
#[verifier::external_body]
pub(crate) fn print_span(p: &jiff::fmt::friendly::SpanPrinter, s: &jiff::Span) -> (r: String)
    ensures
        r@ == friendly_text(printer_config(*p), span_id(*s)),
{
    p.span_to_string(s)
}

/// Build a printer that carries exactly the validated configuration: every
/// setting of the engine's printer that this library exposes is set from the
/// corresponding field.
pub(crate) fn build_printer(cfg: &PrinterConfig) -> (p: jiff::fmt::friendly::SpanPrinter)
    ensures
        printer_config(p) == *cfg,
{
    let p = printer_new();
    let p = printer_spacing(p, cfg.spacing);
    let p = printer_comma_after_designator(p, cfg.comma_after_designator);
    let p = printer_designator(p, cfg.designator);
    let p = printer_hours_minutes_seconds(p, cfg.hours_minutes_seconds);
    let p = printer_padding(p, cfg.padding);
    let p = printer_zero_unit(p, cfg.zero_unit);
    let p = printer_direction(p, cfg.direction);
    let p = printer_fractional(p, cfg.fractional_unit);
    proof {
        assert(printer_config(p) =~= *cfg);
    }
    p
}

} // verus!
