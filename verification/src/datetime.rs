//! Timestamps with microsecond precision.

use std::cmp::Ordering;
use vstd::prelude::*;
use vstd::std_specs::cmp::{PartialOrdSpec, PartialOrdSpecImpl};
use vstd::string::StringExecFns;

use crate::bindings::{
    format_error_text, format_iso8601, format_offset_date_time, format_rfc2822, format_rfc3339,
    tantivy_datetime_of, time_error_text, time_iso8601_of, time_moment_of, time_rendering,
    time_rfc2822_of, time_rfc3339_of, CALENDAR_MAX_NANOS, CALENDAR_MIN_NANOS,
};

verus! {

/// Milliseconds in one second.
pub const MILLIS_PER_SEC: i64 = 1_000;

/// Microseconds in one millisecond.
pub const MICROS_PER_MILLI: i64 = 1_000;

/// Microseconds in one second.
pub const MICROS_PER_SEC: i64 = 1_000_000;

/// Nanoseconds in one microsecond.
pub const NANOS_PER_MICRO: i128 = 1_000;

/// True when `n` can be held by a 64-bit signed integer.
pub open spec fn fits_i64(n: int) -> bool {
    i64::MIN <= n <= i64::MAX
}

/// Why a timestamp could not be rendered as text.
#[derive(Debug, PartialEq, Eq)]
pub enum FormatError {
    /// The timestamp lies outside the years that the calendar can hold.
    OutOfRange,
    /// The format description could not render the timestamp. The text says
    /// why, in the calendar's words.
    Format(String),
}

impl FormatError {
    /// What `message` returns.
    pub open spec fn spec_message(&self) -> Seq<char> {
        match self {
            FormatError::OutOfRange =>
                "Cannot format datetime as is beyond what the format supports rendering"@,
            FormatError::Format(detail) => "Cannot format datetime with the given format: "@
                + detail@,
        }
    }

    /// The error as a sentence for the user.
    pub fn message(&self) -> (r: String)
        ensures
            r@ == self.spec_message(),
    {
        match self {
            FormatError::OutOfRange => String::from_str(
                "Cannot format datetime as is beyond what the format supports rendering",
            ),
            FormatError::Format(detail) => String::from_str(
                "Cannot format datetime with the given format: ",
            ).concat(detail.as_str()),
        }
    }
}

/// The formats that the calendar knows by name.
#[derive(Debug, Clone, Copy, PartialEq, Eq, Structural)]
pub enum WellKnownFormat {
    /// The format of RFC 2822, as in `Thu, 01 Jan 1970 00:00:00 +0000`.
    Rfc2822,
    /// The format of RFC 3339, as in `1970-01-01T00:00:00Z`.
    Rfc3339,
    /// The format of ISO 8601, as in `1970-01-01T00:00:00.000000000Z`.
    Iso8601,
}

impl WellKnownFormat {
    /// What the calendar makes of a moment under this format.
    pub open spec fn rendering(self, moment: time::OffsetDateTime) -> Result<
        Seq<char>,
        time::error::Format,
    > {
        match self {
            WellKnownFormat::Rfc2822 => time_rfc2822_of(moment),
            WellKnownFormat::Rfc3339 => time_rfc3339_of(moment),
            WellKnownFormat::Iso8601 => time_iso8601_of(moment),
        }
    }
}

/// True when `r` is what a format function returns for the calendar's
/// answer `rendering`: the rendered text as it is, or `Format` with the
/// sentence of the calendar's error.
pub open spec fn is_rendering(
    r: Result<String, FormatError>,
    rendering: Result<Seq<char>, time::error::Format>,
) -> bool {
    match rendering {
        Ok(text) => r matches Ok(rendered) && rendered@ == text,
        Err(error) => r matches Err(FormatError::Format(detail)) && detail@ == time_error_text(
            error,
        ),
    }
}

/// What `DateTime::format` returns once the calendar has answered: the
/// rendered text as it is, a failure with the calendar's explanation.
pub fn format_outcome(rendering: Result<String, String>) -> (r: Result<String, FormatError>)
    ensures
        r == match rendering {
            Ok(text) => Ok::<String, FormatError>(text),
            Err(detail) => Err(FormatError::Format(detail)),
        },
{
    match rendering {
        Ok(text) => Ok(text),
        Err(detail) => Err(FormatError::Format(detail)),
    }
}

/// A point in time, held as a signed count of microseconds from the epoch.
///
/// The view of a `DateTime` is that count.
#[derive(Debug, Copy, Clone, PartialEq, Eq, Structural, Ord)]
pub struct DateTime {
    micros: i64,
}

impl View for DateTime {
    type V = int;

    closed spec fn view(&self) -> int {
        self.micros as int
    }
}

impl PartialOrd for DateTime {
    fn partial_cmp(&self, other: &Self) -> (r: Option<Ordering>) {
        if self.micros < other.micros {
            Some(Ordering::Less)
        } else if self.micros == other.micros {
            Some(Ordering::Equal)
        } else {
            Some(Ordering::Greater)
        }
    }
}

/// Timestamps are ordered as their microsecond counts are.
impl PartialOrdSpecImpl for DateTime {
    open spec fn obeys_partial_cmp_spec() -> bool {
        true
    }

    open spec fn partial_cmp_spec(&self, other: &Self) -> Option<Ordering> {
        if self@ < other@ {
            Some(Ordering::Less)
        } else if self@ == other@ {
            Some(Ordering::Equal)
        } else {
            Some(Ordering::Greater)
        }
    }
}

impl DateTime {
    /// The latest timestamp that can be held.
    #[inline]
    pub fn max_value() -> (r: Self)
        ensures
            r@ == i64::MAX,
    {
        Self { micros: i64::MAX }
    }

    /// The earliest timestamp that can be held.
    #[inline]
    pub fn min_value() -> (r: Self)
        ensures
            r@ == i64::MIN,
    {
        Self { micros: i64::MIN }
    }

    /// The timestamp that lies `micros` microseconds from the epoch.
    pub closed spec fn at(micros: int) -> DateTime
        recommends
            fits_i64(micros),
    {
        DateTime { micros: micros as i64 }
    }

    /// What `from_secs` returns: the timestamp `v` seconds from the epoch,
    /// unless its microsecond count leaves the 64-bit range.
    pub open spec fn spec_from_secs(v: i64) -> Option<DateTime> {
        if fits_i64(v * MICROS_PER_SEC) {
            Some(Self::at(v * MICROS_PER_SEC))
        } else {
            None
        }
    }

    /// What `from_millis` returns: the timestamp `v` milliseconds from the
    /// epoch, unless its microsecond count leaves the 64-bit range.
    pub open spec fn spec_from_millis(v: i64) -> Option<DateTime> {
        if fits_i64(v * MICROS_PER_MILLI) {
            Some(Self::at(v * MICROS_PER_MILLI))
        } else {
            None
        }
    }

    /// What `from_micros` returns: always the timestamp `v` microseconds
    /// from the epoch.
    pub open spec fn spec_from_micros(v: i64) -> Option<DateTime> {
        Some(Self::at(v as int))
    }

    /// The microsecond count, as `as_micros` returns it.
    pub open spec fn spec_as_micros(&self) -> i64 {
        self@ as i64
    }

    /// Every timestamp holds a count within the 64-bit range.
    pub proof fn lemma_view_fits(self)
        ensures
            fits_i64(self@),
            self.spec_as_micros() == self@,
    {
    }

    /// `at(micros)` is the timestamp whose view is `micros`.
    pub proof fn lemma_at_view(micros: int)
        requires
            fits_i64(micros),
        ensures
            Self::at(micros)@ == micros,
    {
    }

    /// Two timestamps with the same microsecond count are the same timestamp.
    pub proof fn lemma_view_determines(a: DateTime, b: DateTime)
        requires
            a@ == b@,
        ensures
            a == b,
    {
    }

    /// Seconds scale to microseconds: for every count of seconds whose
    /// microsecond count fits in 64 bits, `from_secs` gives the timestamp
    /// that `from_micros` gives for that microsecond count.
    pub proof fn lemma_from_secs_is_from_micros(v: i64)
        requires
            fits_i64(v * MICROS_PER_SEC),
        ensures
            Self::spec_from_secs(v) is Some,
            Self::spec_from_secs(v) == Self::spec_from_micros((v * MICROS_PER_SEC) as i64),
    {
    }

    /// Milliseconds scale to microseconds in the same way.
    pub proof fn lemma_from_millis_is_from_micros(v: i64)
        requires
            fits_i64(v * MICROS_PER_MILLI),
        ensures
            Self::spec_from_millis(v) is Some,
            Self::spec_from_millis(v) == Self::spec_from_micros((v * MICROS_PER_MILLI) as i64),
    {
    }

    /// Microseconds go in and come out unchanged: `from_micros` gives a
    /// value for every count, and `as_micros` of it is that count.
    pub proof fn lemma_micros_round_trip(v: i64)
        ensures
            Self::spec_from_micros(v) matches Some(d) && d.spec_as_micros() == v && d@ == v,
    {
    }

    /// Timestamps are in the order of their microsecond counts, and that
    /// order is total: of two timestamps one is earlier, or they are equal.
    pub proof fn lemma_total_order(a: DateTime, b: DateTime)
        ensures
            PartialOrdSpec::partial_cmp_spec(&a, &b) == Some(Ordering::Less) <==> a@ < b@,
            PartialOrdSpec::partial_cmp_spec(&a, &b) == Some(Ordering::Equal) <==> a == b,
            PartialOrdSpec::partial_cmp_spec(&a, &b) == Some(Ordering::Greater) <==> a@ > b@,
            PartialOrdSpec::partial_cmp_spec(&a, &b) is Some,
    {
    }

    /// Converts a timestamp in seconds to a datetime value.
    ///
    /// Returns `None` when the count of microseconds does not fit in 64 bits.
    #[inline]
    pub fn from_secs(v: i64) -> (r: Option<Self>)
        ensures
            r == Self::spec_from_secs(v),
            r is Some <==> fits_i64(v * MICROS_PER_SEC),
            r matches Some(d) ==> d@ == v * MICROS_PER_SEC,
    {
        match v.checked_mul(MILLIS_PER_SEC) {
            Some(millis) => Self::from_millis(millis),
            None => {
                // A count that leaves the range as milliseconds leaves it as
                // microseconds too.
                assert(!fits_i64(v * MICROS_PER_SEC)) by {
                    assert(!fits_i64(v * MILLIS_PER_SEC));
                    assert(v * MICROS_PER_SEC == (v * MILLIS_PER_SEC) * MICROS_PER_MILLI)
                        by (nonlinear_arith);
                }
                None
            },
        }
    }

    /// Converts a timestamp in milliseconds to a datetime value.
    ///
    /// Returns `None` when the count of microseconds does not fit in 64 bits.
    #[inline]
    pub fn from_millis(v: i64) -> (r: Option<Self>)
        ensures
            r == Self::spec_from_millis(v),
            r is Some <==> fits_i64(v * MICROS_PER_MILLI),
            r matches Some(d) ==> d@ == v * MICROS_PER_MILLI,
    {
        match v.checked_mul(MICROS_PER_MILLI) {
            Some(micros) => Self::from_micros(micros),
            None => None,
        }
    }

    /// Converts a timestamp in microseconds to a datetime value.
    ///
    /// This never returns `None`: the result is optional only to match the
    /// other constructors.
    #[inline]
    pub fn from_micros(v: i64) -> (r: Option<Self>)
        ensures
            r == Self::spec_from_micros(v),
            r matches Some(d) && d@ == v,
    {
        Some(Self { micros: v })
    }

    /// The timestamp as a count of nanoseconds.
    pub open spec fn nanos(&self) -> int {
        self@ * NANOS_PER_MICRO
    }

    /// True when the timestamp lies within the years that the calendar can
    /// hold, -9999 to 9999.
    pub open spec fn in_calendar_range(&self) -> bool {
        CALENDAR_MIN_NANOS <= self.nanos() <= CALENDAR_MAX_NANOS
    }

    /// Renders the timestamp as text, as the format description asks.
    ///
    /// Fails with `OutOfRange` exactly when the timestamp lies outside the
    /// calendar's years. Within them the result is what the calendar makes
    /// of the moment under the description: the text it renders, or `Format`
    /// with the calendar's explanation where the description cannot render
    /// the moment.
    #[inline]
    pub fn format(&self, format: &[time::format_description::BorrowedFormatItem<'_>]) -> (r: Result<
        String,
        FormatError,
    >)
        ensures
            r == Err::<String, FormatError>(FormatError::OutOfRange)
                <==> !self.in_calendar_range(),
            self.in_calendar_range() ==> is_rendering(
                r,
                time_rendering(time_moment_of(self.nanos()), format@),
            ),
    {
        let nanos: i128 = (self.micros as i128) * NANOS_PER_MICRO;
        match time::OffsetDateTime::from_unix_timestamp_nanos(nanos) {
            Err(_) => Err(FormatError::OutOfRange),
            Ok(moment) => {
                let rendering = match format_offset_date_time(moment, format) {
                    Ok(text) => Ok(text),
                    Err(error) => Err(format_error_text(&error)),
                };
                format_outcome(rendering)
            },
        }
    }

    /// Renders the timestamp as text in a format that the calendar knows by
    /// name.
    ///
    /// Fails with `OutOfRange` exactly when the timestamp lies outside the
    /// calendar's years. Within them the result is what the calendar makes
    /// of the moment under the format: the text, or `Format` with the
    /// calendar's explanation where the format cannot hold the moment.
    pub fn format_well_known(&self, format: WellKnownFormat) -> (r: Result<String, FormatError>)
        ensures
            r == Err::<String, FormatError>(FormatError::OutOfRange)
                <==> !self.in_calendar_range(),
            self.in_calendar_range() ==> is_rendering(
                r,
                format.rendering(time_moment_of(self.nanos())),
            ),
    {
        let nanos: i128 = (self.micros as i128) * NANOS_PER_MICRO;
        match time::OffsetDateTime::from_unix_timestamp_nanos(nanos) {
            Err(_) => Err(FormatError::OutOfRange),
            Ok(moment) => {
                let outcome = match format {
                    WellKnownFormat::Rfc2822 => format_rfc2822(moment),
                    WellKnownFormat::Rfc3339 => format_rfc3339(moment),
                    WellKnownFormat::Iso8601 => format_iso8601(moment),
                };
                let rendering = match outcome {
                    Ok(text) => Ok(text),
                    Err(error) => Err(format_error_text(&error)),
                };
                format_outcome(rendering)
            },
        }
    }

    /// The timestamp in the form that the index stores, made from the
    /// microsecond count as it is.
    #[inline]
    pub fn as_tantivy_value(&self) -> (r: tantivy::DateTime)
        ensures
            r == tantivy_datetime_of(self.spec_as_micros()),
    {
        tantivy::DateTime::from_timestamp_micros(self.micros)
    }

    /// The timestamp as a count of microseconds, exactly.
    #[inline]
    #[verifier::when_used_as_spec(spec_as_micros)]
    pub fn as_micros(&self) -> (r: i64)
        ensures
            r == self@,
            r == self.spec_as_micros(),
    {
        self.micros
    }
}

} // verus!
