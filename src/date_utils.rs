//! Calendar dates of the proleptic Gregorian calendar, as the library holds
//! them, with parsing, rendering and day-by-day ranges.
use vstd::prelude::*;
use crate::text::zero_padded;
use crate::error::AppError;
use chrono::Datelike;

verus! {

/// Earliest year that dates may carry.
pub const MIN_YEAR: i32 = -262143;

/// Latest year that dates may carry.
pub const MAX_YEAR: i32 = 262142;

/// Leap years of the proleptic Gregorian calendar.
pub open spec fn is_leap(y: int) -> bool {
    y % 4 == 0 && (y % 100 != 0 || y % 400 == 0)
}

/// Number of days in month `m` of year `y`.
pub open spec fn days_in_month(y: int, m: int) -> int {
    if m == 2 {
        if is_leap(y) {
            29
        } else {
            28
        }
    } else if m == 4 || m == 6 || m == 9 || m == 11 {
        30
    } else {
        31
    }
}

/// `(y, m, d)` names a day of the supported calendar range.
pub open spec fn valid_ymd(y: int, m: int, d: int) -> bool {
    MIN_YEAR <= y <= MAX_YEAR && 1 <= m <= 12 && 1 <= d <= days_in_month(y, m)
}

/// The day after `(y, m, d)`.
pub open spec fn next_ymd(y: int, m: int, d: int) -> (int, int, int) {
    if d < days_in_month(y, m) {
        (y, m, d + 1)
    } else if m < 12 {
        (y, m + 1, 1)
    } else {
        (y + 1, 1, 1)
    }
}

/// Chronological order of days.
pub open spec fn ymd_le(a: (int, int, int), b: (int, int, int)) -> bool {
    a.0 < b.0 || (a.0 == b.0 && (a.1 < b.1 || (a.1 == b.1 && a.2 <= b.2)))
}

/// Strict chronological order of days.
pub open spec fn ymd_lt(a: (int, int, int), b: (int, int, int)) -> bool {
    ymd_le(a, b) && a != b
}

/// A key that grows with chronological order.
pub open spec fn ymd_key(a: (int, int, int)) -> int {
    a.0 * 372 + a.1 * 31 + a.2
}

/// A calendar day.
#[derive(Debug, Clone, Copy, PartialEq, Eq, Structural)]
pub struct Date {
    year: i32,
    month: u32,
    day: u32,
}

impl View for Date {
    type V = (int, int, int);

    closed spec fn view(&self) -> (int, int, int) {
        (self.year as int, self.month as int, self.day as int)
    }
}

impl Date {
    #[verifier::type_invariant]
    spec fn inv(&self) -> bool {
        valid_ymd(self.year as int, self.month as int, self.day as int)
    }

    /// The date `(year, month, day)`, if it names a valid day.
    pub fn from_ymd_opt(year: i32, month: u32, day: u32) -> (r: Option<Date>)
        ensures
            r is Some <==> valid_ymd(year as int, month as int, day as int),
            r is Some ==> r.unwrap()@ == (year as int, month as int, day as int),
    {
        if year < MIN_YEAR || year > MAX_YEAR || month < 1 || month > 12 || day < 1 {
            return None;
        }
        let leap = year % 4 == 0 && (year % 100 != 0 || year % 400 == 0);
        assert(leap == is_leap(year as int)) by {
            assert((year % 4 == 0) == ((year as int) % 4 == 0));
            assert((year % 100 == 0) == ((year as int) % 100 == 0));
            assert((year % 400 == 0) == ((year as int) % 400 == 0));
        }
        let dim: u32 = if month == 2 {
            if leap {
                29
            } else {
                28
            }
        } else if month == 4 || month == 6 || month == 9 || month == 11 {
            30
        } else {
            31
        };
        if day > dim {
            return None;
        }
        Some(Date { year, month, day })
    }

    /// The year.
    pub fn year(&self) -> (r: i32)
        ensures
            r as int == self@.0,
            valid_ymd(self@.0, self@.1, self@.2),
    {
        proof {
            use_type_invariant(self);
        }
        self.year
    }

    /// The month, from 1.
    pub fn month(&self) -> (r: u32)
        ensures
            r as int == self@.1,
            valid_ymd(self@.0, self@.1, self@.2),
    {
        proof {
            use_type_invariant(self);
        }
        self.month
    }

    /// The day of the month, from 1.
    pub fn day(&self) -> (r: u32)
        ensures
            r as int == self@.2,
            valid_ymd(self@.0, self@.1, self@.2),
    {
        proof {
            use_type_invariant(self);
        }
        self.day
    }
}

/// What chrono's `NaiveDate::parse_from_str(s, "%Y-%m-%d")` yields for a
/// text: the year, month and day it reads, or nothing where it fails.
pub uninterp spec fn parsed_ymd(s: Seq<char>) -> Option<(i32, u32, u32)>;

/// Relies on chrono's `NaiveDate::parse_from_str` with the format `%Y-%m-%d`:
/// its result depends on the text alone, and a date that it returns always
/// names a valid day within chrono's range.
#[verifier::external_body]
fn chrono_parse_ymd(s: &str) -> (r: Option<(i32, u32, u32)>)
    ensures
        r == parsed_ymd(s@),
        r matches Some(t) ==> valid_ymd(t.0 as int, t.1 as int, t.2 as int),
{
    chrono::NaiveDate::parse_from_str(s, "%Y-%m-%d").ok().map(|d| (d.year(), d.month(), d.day()))
}

/// The year as chrono's `%Y` renders it: four digits, zero-padded, with a
/// sign before years outside 0..=9999.
pub open spec fn year_text(y: int) -> Seq<char> {
    if 0 <= y <= 9999 {
        zero_padded(y as nat, 4)
    } else if y < 0 {
        seq!['-'] + zero_padded((-y) as nat, 4)
    } else {
        seq!['+'] + zero_padded(y as nat, 4)
    }
}

/// `YYYY-MM-DD` rendering of a day.
pub open spec fn iso_text(d: (int, int, int)) -> Seq<char> {
    year_text(d.0) + seq!['-'] + zero_padded(d.1 as nat, 2) + seq!['-'] + zero_padded(
        d.2 as nat,
        2,
    )
}

/// Relies on chrono's `NaiveDate::format` with `%Y-%m-%d`: `%Y` writes four
/// zero-padded digits, with a sign outside 0..=9999; `%m` and `%d` two digits.
#[verifier::external_body]
fn chrono_format_ymd(year: i32, month: u32, day: u32) -> (r: String)
    requires
        valid_ymd(year as int, month as int, day as int),
    ensures
        r@ == iso_text((year as int, month as int, day as int)),
{
    chrono::NaiveDate::from_ymd_opt(year, month, day).unwrap().format("%Y-%m-%d").to_string()
}

/// Relies on chrono's `NaiveDate::succ_opt`: the next calendar day, which
/// exists for every day before the last one of chrono's range.
#[verifier::external_body]
fn chrono_succ(year: i32, month: u32, day: u32) -> (r: (i32, u32, u32))
    requires
        valid_ymd(year as int, month as int, day as int),
        !(year == MAX_YEAR && month == 12 && day == 31),
    ensures
        (r.0 as int, r.1 as int, r.2 as int) == next_ymd(year as int, month as int, day as int),
{
    let d = chrono::NaiveDate::from_ymd_opt(year, month, day).unwrap().succ_opt().unwrap();
    (d.year(), d.month(), d.day())
}

/// Parses a `YYYY-MM-DD` date.
pub fn parse_date(date_str: &str) -> (r: Result<Date, AppError>)
    ensures
        r is Ok <==> parsed_ymd(date_str@) is Some,
        r matches Ok(d) ==> parsed_ymd(date_str@) matches Some(t) && d@ == (
            t.0 as int,
            t.1 as int,
            t.2 as int,
        ),
        r matches Err(e) ==> e matches AppError::InvalidDate { input, .. } && input@
            == date_str@,
{
    match chrono_parse_ymd(date_str) {
        Some((y, m, d)) => match Date::from_ymd_opt(y, m, d) {
            Some(date) => Ok(date),
            None => {
                proof {
                    assert(false);
                }
                Err(AppError::InvalidDate { input: date_str.to_string(), details: String::new() })
            },
        },
        None => {
            Err(
                AppError::InvalidDate {
                    input: date_str.to_string(),
                    details: String::from_str("input does not match YYYY-MM-DD"),
                },
            )
        },
    }
}

/// Renders a date as `YYYY-MM-DD`.
pub fn format_date(date: &Date) -> (r: String)
    ensures
        r@ == iso_text(date@),
{
    chrono_format_ymd(date.year(), date.month(), date.day())
}

/// The day after `date`, unless `date` is the last day of the range.
pub fn next_day(date: &Date) -> (r: Option<Date>)
    ensures
        r is None <==> date@ == (MAX_YEAR as int, 12int, 31int),
        r matches Some(n) ==> n@ == next_ymd(date@.0, date@.1, date@.2),
{
    let (y, m, d) = (date.year(), date.month(), date.day());
    if y == MAX_YEAR && m == 12 && d == 31 {
        return None;
    }
    let (ny, nm, nd) = chrono_succ(y, m, d);
    let r = Date::from_ymd_opt(ny, nm, nd);
    proof {
        let n = next_ymd(y as int, m as int, d as int);
        assert(valid_ymd(n.0, n.1, n.2));
    }
    r
}

/// Every day from `start` to `end`, both included, in order; empty when
/// `end` comes before `start`.
pub fn date_range(start: Date, end: Date) -> (r: Vec<Date>)
    ensures
        ymd_le(start@, end@) ==> r@.len() > 0 && r@[0]@ == start@ && r@.last()@ == end@,
        !ymd_le(start@, end@) ==> r@.len() == 0,
        forall|i: int|
            0 <= i < r@.len() - 1 ==> #[trigger] r@[i + 1]@ == next_ymd(r@[i]@.0, r@[i]@.1, r@[i]@.2),
{
    let mut dates: Vec<Date> = Vec::new();
    let s = (start.year(), start.month(), start.day());
    let e = (end.year(), end.month(), end.day());
    if !(s.0 < e.0 || (s.0 == e.0 && (s.1 < e.1 || (s.1 == e.1 && s.2 <= e.2)))) {
        return dates;
    }
    let mut current = start;
    loop
        invariant_except_break
            dates@.len() > 0 ==> current@ == next_ymd(
                dates@.last()@.0,
                dates@.last()@.1,
                dates@.last()@.2,
            ),
        invariant
            ymd_le(current@, end@),
            valid_ymd(end@.0, end@.1, end@.2),
            e.0 as int == end@.0 && e.1 as int == end@.1 && e.2 as int == end@.2,
            dates@.len() == 0 ==> current@ == start@,
            dates@.len() > 0 ==> dates@[0]@ == start@,
            forall|i: int|
                0 <= i < dates@.len() - 1 ==> #[trigger] dates@[i + 1]@ == next_ymd(
                    dates@[i]@.0,
                    dates@[i]@.1,
                    dates@[i]@.2,
                ),
        ensures
            dates@.len() > 0 && dates@[0]@ == start@ && dates@.last()@ == end@,
            forall|i: int|
                0 <= i < dates@.len() - 1 ==> #[trigger] dates@[i + 1]@ == next_ymd(
                    dates@[i]@.0,
                    dates@[i]@.1,
                    dates@[i]@.2,
                ),
        decreases ymd_key(end@) - ymd_key(current@),
    {
        let ghost prev = dates@;
        dates.push(current);
        assert forall|i: int| 0 <= i < dates@.len() - 1 implies #[trigger] dates@[i + 1]@ == next_ymd(
            dates@[i]@.0,
            dates@[i]@.1,
            dates@[i]@.2,
        ) by {
            if i < prev.len() - 1 {
                assert(dates@[i] == prev[i] && dates@[i + 1] == prev[i + 1]);
            }
        }
        assert(dates@[0]@ == start@);
        assert(dates@.last() == current);
        let c = (current.year(), current.month(), current.day());
        if c.0 == e.0 && c.1 == e.1 && c.2 == e.2 {
            assert(current@ == end@);
            break;
        }
        match next_day(&current) {
            Some(n) => {
                proof {
                    let k = n@;
                    let cur = current@;
                    assert(cur != end@);
                    assert(valid_ymd(cur.0, cur.1, cur.2));
                    if cur.2 < days_in_month(cur.0, cur.1) {
                        assert(ymd_le(k, end@));
                    } else if cur.1 < 12 {
                        assert(ymd_le(k, end@));
                    } else {
                        assert(ymd_le(k, end@));
                    }
                    assert(ymd_key(k) > ymd_key(current@));
                }
                current = n;
            },
            None => {
                proof {
                    assert(false);
                }
                break;
            },
        }
    }
    dates
}

} // verus!
