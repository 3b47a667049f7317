//! Conversion of instants to and from the text form the stores keep them
//! in: UTC, as `YYYY-MM-DD HH:MM:SS`. An instant is a number of seconds
//! since the Unix epoch.

use vstd::prelude::*;

verus! {

/// The text chrono writes for an instant in UTC with the format
/// `%Y-%m-%d %H:%M:%S`; `None` when chrono cannot represent the instant.
pub uninterp spec fn utc_sql_text(secs: i64) -> Option<Seq<char>>;

/// The instant chrono reads from a text in the format `%Y-%m-%d %H:%M:%S`,
/// taken as UTC; `None` when the text does not match the format.
pub uninterp spec fn sql_text_seconds(s: Seq<char>) -> Option<i64>;

/// Trusted: `chrono::DateTime::<Utc>::from_timestamp(secs, 0)`, formatted
/// with `%Y-%m-%d %H:%M:%S`.
#[verifier::external_body]
fn format_utc_sql(secs: i64) -> (r: Option<String>)
    ensures
        match r {
            Some(s) => utc_sql_text(secs) == Some(s@),
            None => utc_sql_text(secs) is None,
        },
{
    chrono::DateTime::<chrono::Utc>::from_timestamp(secs, 0).map(
        |t| t.format("%Y-%m-%d %H:%M:%S").to_string(),
    )
}

/// Trusted: `chrono::NaiveDateTime::parse_from_str(s, "%Y-%m-%d %H:%M:%S")`,
/// read as UTC and given as a timestamp.
#[verifier::external_body]
fn parse_utc_sql(s: &str) -> (r: Option<i64>)
    ensures
        r == sql_text_seconds(s@),
{
    chrono::NaiveDateTime::parse_from_str(s, "%Y-%m-%d %H:%M:%S").ok().map(|t| t.and_utc().timestamp())
}

/// The stored text of an instant: UTC, `YYYY-MM-DD HH:MM:SS`; `None` for an
/// instant outside chrono's range.
pub fn local_to_sqlstr(time: i64) -> (r: Option<String>)
    ensures
        match r {
            Some(s) => utc_sql_text(time) == Some(s@),
            None => utc_sql_text(time) is None,
        },
{
    format_utc_sql(time)
}

/// The instant a stored text names, read as UTC; the text must match the
/// format.
pub fn sqlstr_to_local(text: &str) -> (r: i64)
    requires
        sql_text_seconds(text@) is Some,
    ensures
        sql_text_seconds(text@) == Some(r),
{
    match parse_utc_sql(text) {
        Some(t) => t,
        None => {
            assert(false);
            0
        },
    }
}

/// The instant a stored text names, or `None` when the text does not match
/// the format.
pub fn try_sqlstr_to_local(text: &str) -> (r: Option<i64>)
    ensures
        r == sql_text_seconds(text@),
{
    match parse_utc_sql(text) {
        Some(_) => Some(sqlstr_to_local(text)),
        None => None,
    }
}

} // verus!
