//! The contracts under which the library calls the crates it is built on.
//!
//! Nothing in this file is proved. Each item names the outside function or
//! type it stands for and says what is claimed of it.

use std::io::Read;
use tantivy::schema::Facet as IndexFacet;
use tantivy::DateTime as IndexDateTime;
use vstd::prelude::*;
use vstd::utf8::{decode_utf8, valid_utf8};

use crate::facet::is_facet_path;

verus! {

/// The first nanosecond that `time` can place on its calendar: midnight of
/// 1 January of the year -9999, counted from the Unix epoch.
pub const CALENDAR_MIN_NANOS: i128 = -377_705_116_800_000_000_000;

/// The last nanosecond that `time` can place on its calendar: the end of
/// 31 December of the year 9999, counted from the Unix epoch.
pub const CALENDAR_MAX_NANOS: i128 = 253_402_300_799_999_999_999;

/// `tantivy::schema::Facet`, a parsed facet path. Opaque.
#[verifier::external_type_specification]
#[verifier::external_body]
pub struct ExIndexFacet(IndexFacet);

/// `tantivy::DateTime`, the timestamp that the index stores. Opaque.
#[verifier::external_type_specification]
#[verifier::external_body]
pub struct ExIndexDateTime(IndexDateTime);

/// `time::OffsetDateTime`, a date and time on the calendar. Opaque.
#[verifier::external_type_specification]
#[verifier::external_body]
pub struct ExOffsetDateTime(time::OffsetDateTime);

/// `time::error::ComponentRange`, the error of a timestamp that the
/// calendar cannot hold. Opaque.
#[verifier::external_type_specification]
#[verifier::external_body]
pub struct ExComponentRange(time::error::ComponentRange);

/// `time::error::Format`, the error of a failed rendering. Opaque.
#[verifier::external_type_specification]
#[verifier::external_body]
pub struct ExFormatError(time::error::Format);

/// `time::format_description::BorrowedFormatItem`, one item of a parsed
/// format description. Opaque.
#[verifier::external_type_specification]
#[verifier::external_body]
pub struct ExBorrowedFormatItem<'a>(time::format_description::BorrowedFormatItem<'a>);

/// `std::string::FromUtf8Error`, the error of bytes that are not UTF-8.
/// Opaque.
#[verifier::external_type_specification]
#[verifier::external_body]
pub struct ExFromUtf8Error(std::string::FromUtf8Error);

/// The facet that `tantivy::schema::Facet::from_text` parses out of `text`,
/// where it accepts the text.
pub uninterp spec fn tantivy_facet_of(text: Seq<char>) -> IndexFacet;

/// The path text that `tantivy::schema::Facet::to_path_string` renders a
/// facet as.
pub uninterp spec fn tantivy_path_of(facet: IndexFacet) -> Seq<char>;

/// The timestamp that `tantivy::DateTime::from_timestamp_micros` makes of a
/// count of microseconds.
pub uninterp spec fn tantivy_datetime_of(micros: i64) -> IndexDateTime;

/// The moment at which `time::OffsetDateTime::from_unix_timestamp_nanos`
/// places a count of nanoseconds, where the calendar holds it.
pub uninterp spec fn time_moment_of(nanos: int) -> time::OffsetDateTime;

/// What `time::OffsetDateTime::format` makes of a moment under a parsed
/// format description: the rendered text, or the error of a description
/// that cannot render the moment.
pub uninterp spec fn time_rendering(
    moment: time::OffsetDateTime,
    format: Seq<time::format_description::BorrowedFormatItem<'static>>,
) -> Result<Seq<char>, time::error::Format>;

/// What `time::OffsetDateTime::format` makes of a moment under the
/// well-known format `Rfc2822`.
pub uninterp spec fn time_rfc2822_of(moment: time::OffsetDateTime) -> Result<
    Seq<char>,
    time::error::Format,
>;

/// What `time::OffsetDateTime::format` makes of a moment under the
/// well-known format `Rfc3339`.
pub uninterp spec fn time_rfc3339_of(moment: time::OffsetDateTime) -> Result<
    Seq<char>,
    time::error::Format,
>;

/// What `time::OffsetDateTime::format` makes of a moment under the
/// well-known format `Iso8601::DEFAULT`.
pub uninterp spec fn time_iso8601_of(moment: time::OffsetDateTime) -> Result<
    Seq<char>,
    time::error::Format,
>;

/// The sentence that a `time::error::Format` displays as.
pub uninterp spec fn time_error_text(error: time::error::Format) -> Seq<char>;

/// What `flate2::read::GzDecoder` reads out of the first member of a gzip
/// stream, or `None` where it reports the stream as broken.
pub uninterp spec fn gzip_decoded(payload: Seq<u8>) -> Option<Seq<u8>>;

/// Calls `tantivy::schema::Facet::from_text`.
///
/// Claimed: the text is accepted exactly when it is not empty and starts
/// with `/`; an accepted text gives the facet named `tantivy_facet_of`; a
/// rejected text comes back unchanged inside the error, which is handed on
/// as a plain string.
#[verifier::external_body]
pub(crate) fn facet_from_text(text: &str) -> (r: Result<IndexFacet, String>)
    ensures
        r is Ok <==> is_facet_path(text@),
        match r {
            Ok(facet) => facet == tantivy_facet_of(text@),
            Err(rejected) => rejected@ == text@,
        },
{
    match IndexFacet::from_text(text) {
        Ok(facet) => Ok(facet),
        Err(tantivy::schema::FacetParseError::FacetParseError(rejected)) => Err(rejected),
    }
}

/// `tantivy::schema::Facet::to_path_string` renders a facet as path text.
/// Claimed: the text depends on the facet alone.
pub assume_specification[ IndexFacet::to_path_string ](parsed: &IndexFacet) -> (r:
    std::string::String)
    ensures
        r@ == tantivy_path_of(*parsed),
;

/// `tantivy::DateTime::from_timestamp_micros` stores the count as it is.
/// Claimed: the result depends on the count alone.
pub assume_specification[ IndexDateTime::from_timestamp_micros ](microseconds: i64) -> (r:
    IndexDateTime)
    ensures
        r == tantivy_datetime_of(microseconds),
;

/// `time::OffsetDateTime::from_unix_timestamp_nanos` places a count of
/// nanoseconds on the calendar.
///
/// Claimed: it succeeds exactly on the counts from the first nanosecond of
/// the year -9999 to the last of the year 9999, and the moment depends on
/// the count alone. This is the range of `time` built without its
/// `large-dates` feature.
pub assume_specification[ time::OffsetDateTime::from_unix_timestamp_nanos ](timestamp: i128) -> (r:
    Result<time::OffsetDateTime, time::error::ComponentRange>)
    ensures
        r is Ok <==> CALENDAR_MIN_NANOS <= timestamp <= CALENDAR_MAX_NANOS,
        match r {
            Ok(moment) => moment == time_moment_of(timestamp as int),
            Err(_) => true,
        },
;

/// Calls `time::OffsetDateTime::format` with a parsed format description.
///
/// Claimed: the outcome depends on the moment and on the items of the
/// description alone, and is the one that `time_rendering` names.
#[verifier::external_body]
pub(crate) fn format_offset_date_time(
    moment: time::OffsetDateTime,
    format: &[time::format_description::BorrowedFormatItem<'_>],
) -> (r: Result<String, time::error::Format>)
    ensures
        match r {
            Ok(text) => time_rendering(moment, format@) == Ok::<Seq<char>, time::error::Format>(
                text@,
            ),
            Err(error) => time_rendering(moment, format@) == Err::<
                Seq<char>,
                time::error::Format,
            >(error),
        },
{
    moment.format(format)
}

/// Calls `time::OffsetDateTime::format` with the well-known format
/// `Rfc2822`.
///
/// Claimed: the outcome depends on the moment alone, and is the one that
/// `time_rfc2822_of` names.
#[verifier::external_body]
pub(crate) fn format_rfc2822(moment: time::OffsetDateTime) -> (r: Result<
    String,
    time::error::Format,
>)
    ensures
        match r {
            Ok(text) => time_rfc2822_of(moment) == Ok::<Seq<char>, time::error::Format>(text@),
            Err(error) => time_rfc2822_of(moment) == Err::<Seq<char>, time::error::Format>(error),
        },
{
    moment.format(&time::format_description::well_known::Rfc2822)
}

/// Calls `time::OffsetDateTime::format` with the well-known format
/// `Rfc3339`.
///
/// Claimed: the outcome depends on the moment alone, and is the one that
/// `time_rfc3339_of` names.
#[verifier::external_body]
pub(crate) fn format_rfc3339(moment: time::OffsetDateTime) -> (r: Result<
    String,
    time::error::Format,
>)
    ensures
        match r {
            Ok(text) => time_rfc3339_of(moment) == Ok::<Seq<char>, time::error::Format>(text@),
            Err(error) => time_rfc3339_of(moment) == Err::<Seq<char>, time::error::Format>(error),
        },
{
    moment.format(&time::format_description::well_known::Rfc3339)
}

/// Calls `time::OffsetDateTime::format` with the well-known format
/// `Iso8601::DEFAULT`.
///
/// Claimed: the outcome depends on the moment alone, and is the one that
/// `time_iso8601_of` names.
#[verifier::external_body]
pub(crate) fn format_iso8601(moment: time::OffsetDateTime) -> (r: Result<
    String,
    time::error::Format,
>)
    ensures
        match r {
            Ok(text) => time_iso8601_of(moment) == Ok::<Seq<char>, time::error::Format>(text@),
            Err(error) => time_iso8601_of(moment) == Err::<Seq<char>, time::error::Format>(error),
        },
{
    moment.format(&time::format_description::well_known::Iso8601::DEFAULT)
}

/// Renders a `time::error::Format` through its `Display` impl.
///
/// Claimed: the sentence depends on the error alone.
#[verifier::external_body]
pub(crate) fn format_error_text(error: &time::error::Format) -> (r: String)
    ensures
        r@ == time_error_text(*error),
{
    error.to_string()
}

/// Reads a whole gzip stream with `flate2::read::GzDecoder`.
///
/// Claimed: the outcome depends on the payload alone, and is the one that
/// `gzip_decoded` names.
#[verifier::external_body]
pub(crate) fn gzip_decode(payload: &[u8]) -> (r: Option<Vec<u8>>)
    ensures
        match r {
            Some(bytes) => gzip_decoded(payload@) == Some(bytes@),
            None => gzip_decoded(payload@) is None,
        },
{
    let mut decoded = Vec::new();
    match flate2::read::GzDecoder::new(payload).read_to_end(&mut decoded) {
        Ok(_) => Some(decoded),
        Err(_) => None,
    }
}

/// `String::from_utf8` turns bytes into text.
///
/// Claimed: it succeeds exactly on valid UTF-8, and the text is then the
/// decoding of the bytes.
pub assume_specification[ std::string::String::from_utf8 ](vec: Vec<u8>) -> (r: Result<
    std::string::String,
    std::string::FromUtf8Error,
>)
    ensures
        r is Ok <==> valid_utf8(vec@),
        match r {
            Ok(text) => text@ == decode_utf8(vec@),
            Err(_) => true,
        },
;

/// `String::push` appends one character.
pub assume_specification[ std::string::String::push ](text: &mut std::string::String, ch: char)
    ensures
        final(text)@ == old(text)@.push(ch),
;

} // verus!
