//! Render calendar spans as human-friendly text.
//!
//! The crate validates a loosely typed configuration, translates it into a
//! fixed formatter configuration, and delegates the calendar arithmetic and
//! text layout to the `jiff` date/time engine. Three operations form the
//! whole surface: the difference between two zoned date-times, a duration
//! rendered from span text (optionally rounded against a relative date), and
//! the list of known time zone identifiers.

pub mod engine;
pub mod options;

use vstd::prelude::*;
use engine::{
    build_printer, datetime_to_zoned, friendly_text, parse_date, parse_datetime, parse_span,
    parsed_date, parsed_datetime, parsed_span, print_span, round_span_to_years, span_rounded,
    tz_id, tz_lookup, until_years_of, zoned_id, zoned_of, zoned_until_years,
};
use options::{translate_options, translate_spec, FriendlyError, PrinterConfig};

pub use options::Options;

verus! {

/// The text that a successful `duration` call returns, as a function of the
/// span text, the optional relative date text, and the validated
/// configuration; `None` when parsing or rounding fails.
pub open spec fn duration_ok_text(
    dur: Seq<char>,
    rel: Option<Seq<char>>,
    cfg: PrinterConfig,
) -> Option<Seq<char>> {
    match parsed_span(dur) {
        Option::None => Option::None,
        Option::Some(sid) => match rel {
            Option::None => Option::Some(friendly_text(cfg, sid)),
            Option::Some(rel_text) => match parsed_date(rel_text) {
                Option::None => Option::None,
                Option::Some(did) => match span_rounded(sid, did) {
                    Option::None => Option::None,
                    Option::Some(rid) => Option::Some(friendly_text(cfg, rid)),
                },
            },
        },
    }
}

/// The view of an optional relative date argument.
pub open spec fn rel_view(rel: Option<String>) -> Option<Seq<char>> {
    match rel {
        Option::None => Option::None,
        Option::Some(s) => Option::Some(s@),
    }
}

/// Whether some time zone pairs the civil date-time written in `text` into
/// the zoned instant with identity `z`.
pub open spec fn zoned_from(text: Seq<char>, z: int) -> bool {
    exists|tz: int|
        parsed_datetime(text) is Some && zoned_of(parsed_datetime(text)->0, tz) == Some(z)
}

/// The successful output of `diff`: for some pair of zoned instants obtained
/// from the two date-time texts under resolved time zones, the text is the
/// friendly rendering of the years-capped span between them.
pub open spec fn diff_ok_pinned(
    start: Seq<char>,
    end: Seq<char>,
    cfg: PrinterConfig,
    text: Seq<char>,
) -> bool {
    exists|z1: int, z2: int|
        #![trigger until_years_of(z1, z2)]
        zoned_from(start, z1) && zoned_from(end, z2) && until_years_of(z1, z2) is Some && text
            == friendly_text(cfg, until_years_of(z1, z2)->0)
}

/// A friendly description of the amount of time between two zoned date-times.
///
/// The options are validated first; then each date-time text is parsed as a
/// civil date-time and resolved against its time zone identifier; the signed
/// calendar span from start to end is computed with years as its top unit and
/// formatted with the validated configuration.
pub fn diff(
    start: &str,
    start_time_zone: &str,
    end: &str,
    end_time_zone: &str,
    options: Options,
) -> (r: Result<String, FriendlyError>)
    ensures
        translate_spec(options) is Err ==> r == Err::<String, FriendlyError>(
            translate_spec(options)->Err_0,
        ),
        translate_spec(options) is Ok && parsed_datetime(start@) is None ==> r matches Err(
            FriendlyError::ParseFailure(_),
        ),
        r is Ok ==> translate_spec(options) is Ok && parsed_datetime(start@) is Some
            && parsed_datetime(end@) is Some,
        r is Ok ==> diff_ok_pinned(start@, end@, translate_spec(options)->Ok_0, (r->Ok_0)@),
        r matches Err(FriendlyError::UnknownTimeZone(name)) ==> (name@ == start_time_zone@ || name@
            == end_time_zone@) && translate_spec(options) is Ok && parsed_datetime(start@) is Some,
        translate_spec(options) is Ok && parsed_datetime(start@) is Some && (r matches Err(
            FriendlyError::ParseFailure(_),
        )) ==> parsed_datetime(end@) is None,
        r matches Err(FriendlyError::InvalidOption { .. }) ==> translate_spec(options) is Err,
        r matches Err(FriendlyError::ParseFailure(_)) ==> translate_spec(options) is Ok,
        r matches Err(FriendlyError::ArithmeticFailure(_)) ==> translate_spec(options) is Ok
            && parsed_datetime(start@) is Some,
{
    let config = match translate_options(&options) {
        Ok(c) => c,
        Err(e) => {
            return Err(e);
        },
    };
    let start_datetime = match parse_datetime(start) {
        Ok(d) => d,
        Err(detail) => {
            return Err(FriendlyError::ParseFailure(detail));
        },
    };
    let start_tz = match tz_lookup(start_time_zone) {
        Ok(t) => t,
        Err(_) => {
            return Err(FriendlyError::UnknownTimeZone(start_time_zone.to_owned()));
        },
    };
    let start_zoned = match datetime_to_zoned(start_datetime, start_tz) {
        Ok(z) => z,
        Err(detail) => {
            return Err(FriendlyError::ArithmeticFailure(detail));
        },
    };
    let end_datetime = match parse_datetime(end) {
        Ok(d) => d,
        Err(detail) => {
            return Err(FriendlyError::ParseFailure(detail));
        },
    };
    let end_tz = match tz_lookup(end_time_zone) {
        Ok(t) => t,
        Err(_) => {
            return Err(FriendlyError::UnknownTimeZone(end_time_zone.to_owned()));
        },
    };
    let end_zoned = match datetime_to_zoned(end_datetime, end_tz) {
        Ok(z) => z,
        Err(detail) => {
            return Err(FriendlyError::ArithmeticFailure(detail));
        },
    };
    let span = match zoned_until_years(&start_zoned, &end_zoned) {
        Ok(s) => s,
        Err(detail) => {
            return Err(FriendlyError::ArithmeticFailure(detail));
        },
    };
    let printer = build_printer(&config);
    let out = print_span(&printer, &span);
    proof {
        assert(zoned_of(parsed_datetime(start@)->0, tz_id(start_tz)) == Some(
            zoned_id(start_zoned),
        ));
        assert(zoned_of(parsed_datetime(end@)->0, tz_id(end_tz)) == Some(zoned_id(end_zoned)));
        assert(zoned_from(start@, zoned_id(start_zoned)));
        assert(zoned_from(end@, zoned_id(end_zoned)));
        assert(diff_ok_pinned(start@, end@, config, out@));
    }
    Ok(out)
}

/// A friendly description of the duration written in `duration`, optionally
/// rounded against a relative civil date with the largest unit capped at
/// years.
///
/// The options are validated first; then the span text is parsed; when a
/// relative date is given it is parsed and the span is rounded against it;
/// the result is formatted with the validated configuration. The successful
/// output is a function of the call's inputs alone: no wall clock is read.
pub fn duration(duration_text: &str, relative_date: Option<String>, options: Options) -> (r: Result<
    String,
    FriendlyError,
>)
    ensures
        translate_spec(options) is Err ==> r == Err::<String, FriendlyError>(
            translate_spec(options)->Err_0,
        ),
        translate_spec(options) is Ok ==> ((r is Ok) == (duration_ok_text(
            duration_text@,
            rel_view(relative_date),
            translate_spec(options)->Ok_0,
        ) is Some)),
        r is Ok ==> (r->Ok_0)@ == duration_ok_text(
            duration_text@,
            rel_view(relative_date),
            translate_spec(options)->Ok_0,
        )->0,
        translate_spec(options) is Ok && parsed_span(duration_text@) is None ==> r matches Err(
            FriendlyError::ParseFailure(_),
        ),
        translate_spec(options) is Ok && parsed_span(duration_text@) is Some && relative_date is Some
            && parsed_date((relative_date->0)@) is None ==> r matches Err(
            FriendlyError::ParseFailure(_),
        ),
        translate_spec(options) is Ok && parsed_span(duration_text@) is Some && relative_date is Some
            && parsed_date((relative_date->0)@) is Some && span_rounded(
            parsed_span(duration_text@)->0,
            parsed_date((relative_date->0)@)->0,
        ) is None ==> r matches Err(FriendlyError::ArithmeticFailure(_)),
{
    let config = match translate_options(&options) {
        Ok(c) => c,
        Err(e) => {
            return Err(e);
        },
    };
    let span = match parse_span(duration_text) {
        Ok(s) => s,
        Err(detail) => {
            return Err(FriendlyError::ParseFailure(detail));
        },
    };
    let printer = build_printer(&config);
    match relative_date {
        None => Ok(print_span(&printer, &span)),
        Some(rel_text) => {
            let rel = match parse_date(rel_text.as_str()) {
                Ok(d) => d,
                Err(detail) => {
                    return Err(FriendlyError::ParseFailure(detail));
                },
            };
            let rounded = match round_span_to_years(&span, &rel) {
                Ok(s) => s,
                Err(detail) => {
                    return Err(FriendlyError::ArithmeticFailure(detail));
                },
            };
            Ok(print_span(&printer, &rounded))
        },
    }
}

/// Every time zone identifier known to the bound database, in the database's
/// enumeration order.
///
/// Relies on `jiff::tz::db().available`: the identifiers come straight from
/// the machine's time zone database, so nothing is stated of them.
#[verifier::external_body]
#[must_use]
pub fn list_time_zones() -> Vec<String> {
    jiff::tz::db().available().map(|x| x.to_string()).collect()
}

/// Law: the successful output of `duration` is a function of the span text,
/// the relative date text, and the validated configuration alone, so two
/// calls with identical inputs return identical text.
pub proof fn lemma_duration_idempotent(
    first: Seq<char>,
    second: Seq<char>,
    dur: Seq<char>,
    rel: Option<Seq<char>>,
    cfg: PrinterConfig,
)
    requires
        duration_ok_text(dur, rel, cfg) == Some(first),
        duration_ok_text(dur, rel, cfg) == Some(second),
    ensures
        first == second,
{
}

} // verus!
