//! Localization of remote timestamps: RFC 3339 in, `YYYY/MM/DD HH:MM:SS` at
//! a fixed UTC+8 offset out, empty when absent or unparseable.
use vstd::prelude::*;

verus! {

/// The epoch seconds an RFC 3339 string denotes, or nothing when it is not
/// one. Named, not spelled out: the grammar belongs to chrono.
pub uninterp spec fn epoch_of(s: Seq<char>) -> Option<int>;

/// The `YYYY/MM/DD HH:MM:SS` rendering of an instant given as epoch seconds
/// (empty for instants outside chrono's representable range).
pub uninterp spec fn ymd_hms_of(epoch: int) -> Seq<char>;

/// Relies on chrono's `DateTime::parse_from_rfc3339` and
/// `DateTime::timestamp`: the epoch seconds of an RFC 3339 string, a function
/// of the characters alone; `None` exactly when the string does not parse.
#[verifier::external_body]
fn parse_rfc3339_epoch(s: &str) -> (r: Option<i64>)
    ensures
        match r {
            Some(e) => epoch_of(s@) == Some(e as int),
            None => epoch_of(s@) is None,
        },
{
    match chrono::DateTime::parse_from_rfc3339(s) {
        Ok(t) => Some(t.timestamp()),
        Err(_) => None,
    }
}

/// Relies on chrono's `DateTime::from_timestamp` and `format`: renders epoch
/// seconds as `%Y/%m/%d %H:%M:%S` in UTC, a function of the value alone;
/// empty when chrono cannot represent the instant.
#[verifier::external_body]
fn format_epoch(e: i64) -> (r: String)
    ensures
        r@ == ymd_hms_of(e as int),
{
    match chrono::DateTime::<chrono::Utc>::from_timestamp(e, 0) {
        Some(t) => t.format("%Y/%m/%d %H:%M:%S").to_string(),
        None => String::new(),
    }
}

/// The localization rule: shift the instant eight hours ahead and render it;
/// anything empty or unparseable becomes the empty string.
pub open spec fn spec_bj_time(s: Seq<char>) -> Seq<char> {
    match epoch_of(s) {
        Some(e) => if e + 28800 <= i64::MAX {
            ymd_hms_of(e + 28800)
        } else {
            Seq::<char>::empty()
        },
        None => Seq::<char>::empty(),
    }
}

pub open spec fn spec_bj_time_opt(o: Option<Seq<char>>) -> Seq<char> {
    match o {
        Some(s) => spec_bj_time(s),
        None => Seq::<char>::empty(),
    }
}

/// Localizes one timestamp string.
pub fn bj_time(s: &str) -> (r: String)
    ensures
        r@ == spec_bj_time(s@),
{
    match parse_rfc3339_epoch(s) {
        Some(e) => {
            if e <= i64::MAX - 28800 {
                format_epoch(e + 28800)
            } else {
                String::new()
            }
        },
        None => String::new(),
    }
}

/// Localizes an optional timestamp string, absent meaning empty.
pub fn bj_time_opt(o: &Option<String>) -> (r: String)
    ensures
        r@ == spec_bj_time_opt(o.deep_view()),
{
    match o {
        Some(s) => bj_time(s.as_str()),
        None => String::new(),
    }
}

} // verus!
