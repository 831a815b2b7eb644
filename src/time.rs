use crate::json::{members_view, str_member, Members};
use crate::json::read_str;
use vstd::prelude::*;

verus! {

/// A moment as the server wrote it: seconds since the Unix epoch, and the
/// offset from UTC, in seconds, of the zone it was written in.
#[derive(Debug, Clone, Copy, PartialEq, Eq, Structural)]
pub struct Timestamp {
    pub seconds: i64,
    pub utc_offset: i32,
}

/// What chrono makes of an RFC 2822 date: its seconds since the epoch and
/// its offset from UTC, or `None` where `text` is no such date.
pub uninterp spec fn rfc2822_of(text: Seq<char>) -> Option<(i64, i32)>;

pub open spec fn timestamp_of(text: Seq<char>) -> Option<Timestamp> {
    match rfc2822_of(text) {
        Some((seconds, utc_offset)) => Some(Timestamp { seconds, utc_offset }),
        None => None,
    }
}

/// Relies on chrono's `DateTime::parse_from_rfc2822`, with `timestamp` and
/// `offset().local_minus_utc()` of the result. The result depends on `text`
/// alone.
#[verifier::external_body]
fn parse_rfc2822(text: &str) -> (r: Option<Timestamp>)
    ensures
        match rfc2822_of(text@) {
            Some((seconds, utc_offset)) => r == Some(Timestamp { seconds, utc_offset }),
            None => r is None,
        },
{
    chrono::DateTime::parse_from_rfc2822(text).ok().map(
        |d| Timestamp { seconds: d.timestamp(), utc_offset: d.offset().local_minus_utc() },
    )
}

/// The member named `key`, where it is a string holding an RFC 2822 date.
pub open spec fn time_member(fields: Members, key: Seq<char>) -> Option<Timestamp> {
    match str_member(fields, key) {
        Some(s) => timestamp_of(s),
        None => None,
    }
}

/// The member named `key`, where it is a string holding an RFC 2822 date.
pub fn read_time(fields: &Vec<(String, String)>, key: &str) -> (r: Option<Timestamp>)
    ensures
        r == time_member(members_view(fields@), key@),
{
    match read_str(fields, key) {
        Some(s) => parse_rfc2822(s.as_str()),
        None => None,
    }
}

} // verus!
