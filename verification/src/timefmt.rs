//! Creation timestamps.  The on-disk filename of a blob is the RFC 3339
//! rendering of its creation time — there is no separate metadata record —
//! and recovery parses the filename back.

use vstd::prelude::*;

use crate::errors::FileError;

verus! {

/// The timestamps the engine accepts: nonnegative epoch seconds up to the
/// end of year 9999, comfortably inside the calendar range the formatter
/// supports.
pub open spec fn valid_ts(ts: int) -> bool {
    0 <= ts <= 253_402_300_799
}

/// The RFC 3339 rendering of an epoch-second instant.
pub uninterp spec fn rfc3339_of(ts: int) -> Seq<char>;

/// Relies on chrono's `DateTime::from_timestamp` and
/// `DateTime::to_rfc3339`: the rendering is a function of the timestamp
/// alone, and every in-range timestamp renders.
#[verifier::external_body]
pub(crate) fn format_rfc3339(ts: i64) -> (r: String)
    requires
        valid_ts(ts as int),
    ensures
        r@ == rfc3339_of(ts as int),
{
    chrono::DateTime::<chrono::Utc>::from_timestamp(ts, 0)
        .expect("timestamp is within the supported range")
        .to_rfc3339()
}

/// Relies on chrono's RFC 3339 parsing (the `FromStr` impl of a UTC
/// datetime): parsing the formatter's own output yields the instant that
/// was rendered.
#[verifier::external_body]
pub(crate) fn parse_rfc3339(s: &str) -> (r: Option<i64>)
    ensures
        forall|t: i64| valid_ts(t as int) && s@ == rfc3339_of(t as int) ==> r == Some(t),
{
    match s.parse::<chrono::DateTime<chrono::Utc>>() {
        Ok(dt) => Some(dt.timestamp()),
        Err(_) => None,
    }
}

/// Recovers the creation time of a blob: the in-memory time when this
/// process created it, otherwise the time parsed back from the persisted
/// file's name.  A filename that is no rendering of an instant surfaces as
/// an internal error.
pub fn recover_time(in_memory: Option<i64>, filename: &str) -> (r: Result<i64, FileError>)
    ensures
        in_memory matches Some(t) ==> r == Ok::<i64, FileError>(t),
        in_memory is None ==> forall|t: i64|
            valid_ts(t as int) && filename@ == rfc3339_of(t as int) ==> r == Ok::<i64,
            FileError>(t),
        r is Err ==> in_memory is None && (r matches Err(e) && e matches FileError::Internal {
            err,
        } && err@ == "unreadable creation time"@),
{
    match in_memory {
        Some(t) => Ok(t),
        None => match parse_rfc3339(filename) {
            Some(t) => Ok(t),
            None => Err(FileError::Internal { err: "unreadable creation time".to_owned() }),
        },
    }
}

} // verus!
