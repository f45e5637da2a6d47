//! Which files carry embedded date tags, and the tag values written for a date.
use vstd::prelude::*;
use crate::text::same_text;
use crate::date_utils::{Date, year_text};
use crate::text::{lower_of, lowercase, zero_padded};
use chrono::Datelike;

verus! {

/// The extension that `Path::extension` gives for a path text: the part of
/// the file name after its last dot, when there is one that does not begin it.
pub uninterp spec fn extension_of(path: Seq<char>) -> Option<Seq<char>>;

/// Relies on `std::path::Path::extension`: its result depends on the path text
/// alone; a path given as text always has a textual extension.
#[verifier::external_body]
pub(crate) fn path_extension(path: &str) -> (r: Option<String>)
    ensures
        r is Some <==> extension_of(path@) is Some,
        r matches Some(e) ==> extension_of(path@) == Some(e@),
{
    std::path::Path::new(path).extension().and_then(|e| e.to_str()).map(|e| e.to_string())
}

/// Lowercase extensions of the image formats that hold embedded tags.
pub open spec fn is_exif_extension_spec(e: Seq<char>) -> bool {
    e == "jpg"@ || e == "jpeg"@ || e == "tif"@ || e == "tiff"@ || e == "png"@ || e == "heic"@
        || e == "heif"@
}

/// Whether a lowercase extension names a format that holds embedded tags.
pub fn is_exif_extension(lowered: &str) -> (r: bool)
    ensures
        r == is_exif_extension_spec(lowered@),
{
    same_text(lowered, "jpg") || same_text(lowered, "jpeg") || same_text(lowered, "tif") || same_text(
        lowered,
        "tiff",
    ) || same_text(lowered, "png") || same_text(lowered, "heic") || same_text(lowered, "heif")
}

/// Whether the file at `path` can hold embedded tags, judged by its
/// extension, whatever its case.
pub fn supports_exif(path: &str) -> (r: bool)
    ensures
        r == (extension_of(path@) matches Some(e) && is_exif_extension_spec(lower_of(e))),
{
    match path_extension(path) {
        Some(ext) => {
            let lowered = lowercase(ext.as_str());
            is_exif_extension(lowered.as_str())
        },
        None => false,
    }
}

/// What chrono's `NaiveDateTime::parse_from_str(s, format)` yields for a
/// text and a format: the year, month and day of the date-time it reads, or
/// nothing where it fails.
pub uninterp spec fn datetime_parsed(s: Seq<char>, format: Seq<char>) -> Option<(i32, u32, u32)>;

/// Relies on chrono's `NaiveDateTime::parse_from_str`: its result depends on
/// the text and the format alone, and a date-time that it returns always
/// holds a valid day within chrono's range.
#[verifier::external_body]
fn chrono_parse_datetime(s: &str, format: &str) -> (r: Option<(i32, u32, u32)>)
    ensures
        r == datetime_parsed(s@, format@),
        r matches Some(t) ==> crate::date_utils::valid_ymd(t.0 as int, t.1 as int, t.2 as int),
{
    chrono::NaiveDateTime::parse_from_str(s, format).ok().map(|dt| (dt.year(), dt.month(), dt.day()))
}

/// The day of an embedded date-time text: the tag format
/// `YYYY:MM:DD HH:MM:SS` first, then `YYYY-MM-DD HH:MM:SS`.
pub open spec fn exif_text_day(s: Seq<char>) -> Option<(i32, u32, u32)> {
    match datetime_parsed(s, "%Y:%m:%d %H:%M:%S"@) {
        Some(t) => Some(t),
        None => datetime_parsed(s, "%Y-%m-%d %H:%M:%S"@),
    }
}

/// The day of an embedded date-time text, if it parses.
pub fn parse_exif_datetime(datetime_str: &str) -> (r: Option<Date>)
    ensures
        r is Some <==> exif_text_day(datetime_str@) is Some,
        r matches Some(d) ==> exif_text_day(datetime_str@) matches Some(t) && d@ == (
            t.0 as int,
            t.1 as int,
            t.2 as int,
        ),
{
    let t = match chrono_parse_datetime(datetime_str, "%Y:%m:%d %H:%M:%S") {
        Some(t) => Some(t),
        None => chrono_parse_datetime(datetime_str, "%Y-%m-%d %H:%M:%S"),
    };
    match t {
        Some((y, m, d)) => Date::from_ymd_opt(y, m, d),
        None => None,
    }
}

/// The tag values written into a file for its date.
#[derive(Debug, Clone)]
pub struct ExifDateFields {
    /// `YYYY:MM:DD 00:00:00`, for the capture, creation and modification tags.
    pub datetime: String,
    /// `YYYY-MM-DD`, for the image description.
    pub description: String,
    /// The artist tag.
    pub artist: String,
}

/// `YYYY:MM:DD 00:00:00`: midnight of a day in the tag format.
pub open spec fn exif_datetime_text(d: (int, int, int)) -> Seq<char> {
    year_text(d.0) + seq![':'] + zero_padded(d.1 as nat, 2) + seq![':'] + zero_padded(d.2 as nat, 2)
        + " 00:00:00"@
}

/// Relies on chrono's `NaiveDateTime::format` with `%Y:%m:%d %H:%M:%S` at
/// midnight: `%Y` writes four zero-padded digits, with a sign outside
/// 0..=9999; `%m`, `%d`, `%H`, `%M`, `%S` two digits each.
#[verifier::external_body]
fn chrono_format_midnight(year: i32, month: u32, day: u32) -> (r: String)
    requires
        crate::date_utils::valid_ymd(year as int, month as int, day as int),
    ensures
        r@ == exif_datetime_text((year as int, month as int, day as int)),
{
    chrono::NaiveDate::from_ymd_opt(year, month, day).unwrap().and_hms_opt(0, 0, 0).unwrap().format(
        "%Y:%m:%d %H:%M:%S",
    ).to_string()
}

/// The tag values for `date`.
pub fn exif_date_fields(date: &Date) -> (r: ExifDateFields)
    ensures
        r.datetime@ == exif_datetime_text(date@),
        r.description@ == crate::date_utils::iso_text(date@),
        r.artist@ == "OWSPACE"@,
{
    let datetime = chrono_format_midnight(date.year(), date.month(), date.day());
    let description = crate::date_utils::format_date(date);
    ExifDateFields { datetime, description, artist: String::from_str("OWSPACE") }
}

} // verus!
