//! Parsers the configuration rules rely on: decimal integers (`std`), shell words
//! (`shell_words`) and date-times (`chrono`).

use vstd::prelude::*;

verus! {

/// An ASCII decimal digit.
pub open spec fn is_digit(c: char) -> bool {
    '0' <= c <= '9'
}

/// The value of a string of decimal digits, most significant first.
pub open spec fn digits_value(d: Seq<char>) -> int
    decreases d.len(),
{
    if d.len() == 0 {
        0
    } else {
        digits_value(d.drop_last()) * 10 + (d.last() as int - '0' as int)
    }
}

/// The digits after an optional leading `+` or `-`.
pub open spec fn unsigned_part(s: Seq<char>) -> Seq<char> {
    if s.len() > 0 && (s[0] == '+' || s[0] == '-') {
        s.skip(1)
    } else {
        s
    }
}

/// The integer an optional sign followed by one or more decimal digits denotes;
/// `None` for any other text (empty, a bare sign, other characters).
pub open spec fn decimal_value(s: Seq<char>) -> Option<int> {
    let digits = unsigned_part(s);
    if digits.len() > 0 && (forall|i: int| 0 <= i < digits.len() ==> is_digit(#[trigger] digits[i])) {
        if s[0] == '-' {
            Some(-digits_value(digits))
        } else {
            Some(digits_value(digits))
        }
    } else {
        None
    }
}

/// What `str::parse::<i32>` accepts: a decimal value within the range of `i32`.
pub open spec fn i32_value(s: Seq<char>) -> Option<int> {
    match decimal_value(s) {
        Some(v) => if i32::MIN <= v <= i32::MAX { Some(v) } else { None },
        None => None,
    }
}

/// What `str::parse::<i64>` accepts: a decimal value within the range of `i64`.
pub open spec fn i64_value(s: Seq<char>) -> Option<int> {
    match decimal_value(s) {
        Some(v) => if i64::MIN <= v <= i64::MAX { Some(v) } else { None },
        None => None,
    }
}

/// `str::parse::<i32>` from `std`: an optional `+` or `-` followed by decimal digits only,
/// within range; anything else (whitespace, underscores, overflow) is an error.
#[verifier::external_body]
pub(crate) fn parse_i32(s: &str) -> (r: Option<i32>)
    ensures
        r is Some <==> i32_value(s@) is Some,
        r matches Some(v) ==> v as int == i32_value(s@)->0,
{
    s.parse::<i32>().ok()
}

/// `str::parse::<i64>` from `std`, under the same rules as `parse_i32`.
#[verifier::external_body]
pub(crate) fn parse_i64(s: &str) -> (r: Option<i64>)
    ensures
        r is Some <==> i64_value(s@) is Some,
        r matches Some(v) ==> v as int == i64_value(s@)->0,
{
    s.parse::<i64>().ok()
}

/// How `shell_words::split` splits a command line into words (`None`: a quote is left open).
pub uninterp spec fn shell_words_of(s: Seq<char>) -> Option<Seq<Seq<char>>>;

/// `shell_words::split`: POSIX-shell-like word splitting. Its result is a function of the
/// text alone; the quoting rules are not restated here.
#[verifier::external_body]
pub(crate) fn shell_split(s: &str) -> (r: Option<Vec<String>>)
    ensures
        r.deep_view() == shell_words_of(s@),
{
    shell_words::split(s).ok()
}

/// The Unix time an RFC 3339 date-time denotes, when `d` is one.
pub uninterp spec fn rfc3339_seconds(d: Seq<char>) -> Option<int>;

/// `chrono::DateTime::parse_from_rfc3339`, as seconds since the Unix epoch.
#[verifier::external_body]
pub(crate) fn parse_rfc3339(d: &str) -> (r: Option<i64>)
    ensures
        r matches Some(t) ==> rfc3339_seconds(d@) == Some(t as int),
        r is None ==> rfc3339_seconds(d@) is None,
{
    chrono::DateTime::parse_from_rfc3339(d).ok().map(|t| t.timestamp())
}

/// The Unix time of a date-time without offset read by the `chrono` format `fmt`, taken as UTC.
pub uninterp spec fn naive_datetime_seconds(d: Seq<char>, fmt: Seq<char>) -> Option<int>;

/// `chrono::NaiveDateTime::parse_from_str` with the format `fmt`, taken as UTC, as seconds
/// since the Unix epoch.
#[verifier::external_body]
pub(crate) fn parse_naive_datetime(d: &str, fmt: &str) -> (r: Option<i64>)
    ensures
        r matches Some(t) ==> naive_datetime_seconds(d@, fmt@) == Some(t as int),
        r is None ==> naive_datetime_seconds(d@, fmt@) is None,
{
    chrono::NaiveDateTime::parse_from_str(d, fmt).ok().map(|t| t.and_utc().fixed_offset().timestamp())
}

/// What `chrono` gives for a date read by the format `fmt`: the Unix time of its first
/// instant (UTC), or the text of its parse error.
pub uninterp spec fn naive_date_outcome(d: Seq<char>, fmt: Seq<char>) -> Result<int, Seq<char>>;

/// `chrono::NaiveDate::parse_from_str` with the format `fmt`; the date's first instant,
/// taken as UTC, as seconds since the Unix epoch, or the parse error's text (`Display`).
#[verifier::external_body]
pub(crate) fn parse_naive_date(d: &str, fmt: &str) -> (r: Result<i64, String>)
    ensures
        r matches Ok(t) ==> (naive_date_outcome(d@, fmt@) matches Ok(x) && x == t as int),
        r matches Err(m) ==> (naive_date_outcome(d@, fmt@) matches Err(y) && y == m@),
{
    chrono::NaiveDate::parse_from_str(d, fmt)
        .map(|t| t.and_time(chrono::NaiveTime::MIN).and_utc().fixed_offset().timestamp())
        .map_err(|e| e.to_string())
}

} // verus!
