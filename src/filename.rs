//! Filename and URL templates: placeholders in braces are replaced by parts
//! of a date.
//!
//! - `{yyyy}` or `{year}`: the year (`2024`)
//! - `{yy}`: the last two digits of the year (`24`)
//! - `{mm}`: the month on two digits (`06`); `{m}` or `{month}`: unpadded (`6`)
//! - `{dd}`: the day on two digits (`05`); `{d}` or `{day}`: unpadded (`5`)
//! - `{month:N}`, `{day:N}`: zero-padded to `N` digits; `{year:N}`: the year
use vstd::prelude::*;
use crate::text::same_text;
use crate::date_utils::Date;
use crate::error::AppError;
use crate::text::{
    decimal, first_index_of, parsed_u64, replaced, signed_decimal, zero_padded, decimal_text,
    find_char, parse_u64, replace_all, signed_decimal_text, zero_padded_text,
};
use vstd::string::*;

verus! {

/// Successive leftmost, non-overlapping matches of the placeholder pattern
/// `\{([^}]+)\}` in `s`: each is the whole match and the text between the braces.
pub open spec fn brace_matches(s: Seq<char>) -> Seq<(Seq<char>, Seq<char>)>
    decreases s.len(),
{
    if s.len() == 0 {
        seq![]
    } else {
        let c = first_index_of(s.subrange(1, s.len() as int), '}') as int;
        if s[0] == '{' && 1 <= c && c + 1 < s.len() {
            seq![(s.subrange(0, c + 2), s.subrange(1, c + 1))] + brace_matches(
                s.subrange(c + 2, s.len() as int),
            )
        } else {
            brace_matches(s.subrange(1, s.len() as int))
        }
    }
}

/// Relies on regex's `Regex::captures_iter` with the pattern `\{([^}]+)\}`:
/// the successive leftmost-first, non-overlapping matches, each with its whole
/// text (group 0) and the text between the braces (group 1).
#[verifier::external_body]
fn placeholder_captures(text: &str) -> (r: Vec<(String, String)>)
    ensures
        r@.map_values(|p: (String, String)| (p.0@, p.1@)) == brace_matches(text@),
{
    let re = regex::Regex::new(r"\{([^}]+)\}").unwrap();
    re.captures_iter(text).map(|c| (c[0].to_string(), c[1].to_string())).collect()
}

/// Absolute value.
pub open spec fn abs(x: int) -> nat {
    if x < 0 {
        (-x) as nat
    } else {
        x as nat
    }
}

/// The template after the fixed placeholders are replaced, in this order:
/// `{yyyy}`, `{year}`, `{yy}`, `{mm}`, `{m}`, `{month}`, `{dd}`, `{d}`, `{day}`.
pub open spec fn substituted(f: Seq<char>, d: (int, int, int)) -> Seq<char> {
    let y = signed_decimal(d.0);
    let yy = zero_padded(abs(d.0) % 100, 2);
    let s1 = replaced(f, "{yyyy}"@, y);
    let s2 = replaced(s1, "{year}"@, y);
    let s3 = replaced(s2, "{yy}"@, yy);
    let s4 = replaced(s3, "{mm}"@, zero_padded(d.1 as nat, 2));
    let s5 = replaced(s4, "{m}"@, decimal(d.1 as nat));
    let s6 = replaced(s5, "{month}"@, decimal(d.1 as nat));
    let s7 = replaced(s6, "{dd}"@, zero_padded(d.2 as nat, 2));
    let s8 = replaced(s7, "{d}"@, decimal(d.2 as nat));
    replaced(s8, "{day}"@, decimal(d.2 as nat))
}

/// Value of a `{name:width}` placeholder; an unknown name stands for itself.
pub open spec fn width_value(name: Seq<char>, width: nat, full: Seq<char>, d: (int, int, int)) -> Seq<char> {
    if name == "year"@ {
        signed_decimal(d.0)
    } else if name == "month"@ {
        zero_padded(d.1 as nat, width)
    } else if name == "day"@ {
        zero_padded(d.2 as nat, width)
    } else {
        full
    }
}

/// Applies one match: a `name:width` placeholder whose width parses is
/// replaced everywhere by its value; any other match changes nothing.
pub open spec fn apply_width(s: Seq<char>, cap: (Seq<char>, Seq<char>), d: (int, int, int)) -> Seq<char> {
    let inner = cap.1;
    let c = first_index_of(inner, ':') as int;
    if c < inner.len() {
        match parsed_u64(inner.subrange(c + 1, inner.len() as int)) {
            Some(w) => replaced(s, cap.0, width_value(inner.subrange(0, c), w as nat, cap.0, d)),
            None => s,
        }
    } else {
        s
    }
}

/// Applies the first `k` matches, in order.
pub open spec fn apply_widths(s: Seq<char>, caps: Seq<(Seq<char>, Seq<char>)>, k: nat, d: (int, int, int)) -> Seq<char>
    decreases k,
{
    if k == 0 {
        s
    } else {
        apply_width(apply_widths(s, caps, (k - 1) as nat, d), caps[k - 1], d)
    }
}

/// The text a template gives for a date: fixed placeholders first, then the
/// `{name:width}` ones found in the result.
pub open spec fn formatted(f: Seq<char>, d: (int, int, int)) -> Seq<char> {
    let s = substituted(f, d);
    let caps = brace_matches(s);
    apply_widths(s, caps, caps.len(), d)
}

/// A template for file names and URLs.
#[derive(Debug, Clone)]
pub struct FilenameFormatter {
    format: String,
}

impl View for FilenameFormatter {
    type V = Seq<char>;

    closed spec fn view(&self) -> Seq<char> {
        self.format@
    }
}

impl FilenameFormatter {
    /// A formatter for a non-empty template.
    pub fn new(format: &str) -> (r: Result<Self, AppError>)
        ensures
            r is Ok <==> format@.len() > 0,
            r matches Ok(f) ==> f@ == format@,
            r matches Err(e) ==> e matches AppError::FilenameFormatError { format: g, .. } && g@
                == format@,
    {
        if format.unicode_len() == 0 {
            return Err(
                AppError::FilenameFormatError {
                    format: format.to_string(),
                    details: String::from_str("格式字符串不能为空"),
                },
            );
        }
        Ok(FilenameFormatter { format: format.to_string() })
    }

    /// The template text.
    pub fn format_str(&self) -> (r: &str)
        ensures
            r@ == self@,
    {
        self.format.as_str()
    }

    /// The file name for `date`.
    pub fn format(&self, date: &Date) -> (r: String)
        ensures
            r@ == formatted(self@, date@),
    {
        let year = date.year();
        let month = date.month();
        let day = date.day();
        let y = signed_decimal_text(year as i64);
        let ay: u64 = if year < 0 {
            (-(year as i64)) as u64
        } else {
            year as u64
        };
        let yy = zero_padded_text(ay % 100, 2);
        let mm = zero_padded_text(month as u64, 2);
        let m = decimal_text(month as u64);
        let dd = zero_padded_text(day as u64, 2);
        let d = decimal_text(day as u64);
        proof {
            reveal_strlit("{yyyy}");
            reveal_strlit("{year}");
            reveal_strlit("{yy}");
            reveal_strlit("{mm}");
            reveal_strlit("{m}");
            reveal_strlit("{month}");
            reveal_strlit("{dd}");
            reveal_strlit("{d}");
            reveal_strlit("{day}");
        }
        let s1 = replace_all(self.format.as_str(), "{yyyy}", y.as_str());
        let s2 = replace_all(s1.as_str(), "{year}", y.as_str());
        let s3 = replace_all(s2.as_str(), "{yy}", yy.as_str());
        let s4 = replace_all(s3.as_str(), "{mm}", mm.as_str());
        let s5 = replace_all(s4.as_str(), "{m}", m.as_str());
        let s6 = replace_all(s5.as_str(), "{month}", m.as_str());
        let s7 = replace_all(s6.as_str(), "{dd}", dd.as_str());
        let s8 = replace_all(s7.as_str(), "{d}", d.as_str());
        let s9 = replace_all(s8.as_str(), "{day}", d.as_str());
        Self::format_variable_width_placeholders(s9.as_str(), date)
    }

    /// The URL for `date`; the same rendering as [`FilenameFormatter::format`].
    pub fn format_url(&self, date: &Date) -> (r: String)
        ensures
            r@ == formatted(self@, date@),
    {
        self.format(date)
    }

    /// Replaces the `{name:width}` placeholders of `format_str` for `date`.
    pub fn format_variable_width_placeholders(format_str: &str, date: &Date) -> (r: String)
        ensures
            r@ == apply_widths(format_str@, brace_matches(format_str@), brace_matches(format_str@).len(), date@),
    {
        let captures = placeholder_captures(format_str);
        let ghost caps = brace_matches(format_str@);
        let mut result = format_str.to_string();
        let mut k: usize = 0;
        while k < captures.len()
            invariant
                k <= captures@.len(),
                captures@.map_values(|p: (String, String)| (p.0@, p.1@)) == caps,
                result@ == apply_widths(format_str@, caps, k as nat, date@),
            decreases captures@.len() - k,
        {
            let full = captures[k].0.as_str();
            let inner = captures[k].1.as_str();
            assert(caps[k as int] == (full@, inner@));
            result = Self::apply_one(result, full, inner, date);
            k += 1;
        }
        assert(caps.len() == captures@.len());
        result
    }

    fn apply_one(s: String, full: &str, inner: &str, date: &Date) -> (r: String)
        ensures
            r@ == apply_width(s@, (full@, inner@), date@),
    {
        let n = inner.unicode_len();
        let c = find_char(inner, ':');
        if c >= n {
            return s;
        }
        let name = inner.substring_char(0, c);
        let width_str = inner.substring_char(c + 1, n);
        match parse_u64(width_str) {
            Some(width) => {
                if full.unicode_len() == 0 {
                    return s;
                }
                let value = if same_text(name, "year") {
                    signed_decimal_text(date.year() as i64)
                } else if same_text(name, "month") {
                    zero_padded_text(date.month() as u64, width)
                } else if same_text(name, "day") {
                    zero_padded_text(date.day() as u64, width)
                } else {
                    full.to_string()
                };
                replace_all(s.as_str(), full, value.as_str())
            },
            None => s,
        }
    }
}

impl TryFrom<&str> for FilenameFormatter {
    type Error = AppError;

    fn try_from(format: &str) -> (r: Result<Self, AppError>) {
        Self::new(format)
    }
}

impl vstd::std_specs::convert::TryFromSpecImpl<&str> for FilenameFormatter {
    open spec fn obeys_try_from_spec() -> bool {
        false
    }

    open spec fn try_from_spec(v: &str) -> Result<Self, AppError> {
        arbitrary()
    }
}

} // verus!
