//! Points in time, as seconds and nanoseconds since the first second of 1970
//! in UTC.

use vstd::prelude::*;

verus! {

/// A point in time: whole seconds since 1970-01-01 00:00:00 UTC, and the
/// nanoseconds into that second.
#[derive(Clone, Copy, Debug, PartialEq, Eq, Structural)]
pub struct Timestamp {
    pub secs: i64,
    pub nanos: u32,
}

/// The point in time that `chrono` reads out of an RFC 3339 text, if it is
/// one.
pub uninterp spec fn rfc3339_instant(text: Seq<char>) -> Option<Timestamp>;

/// How `chrono` writes a point in time in UTC, if the point is in its range.
pub uninterp spec fn utc_text(at: Timestamp) -> Option<Seq<char>>;

/// `chrono::DateTime::parse_from_rfc3339`, with the result taken as seconds
/// and nanoseconds. Trusted: the result is a function of the text.
#[verifier::external_body]
fn parse_from_rfc3339(text: &str) -> (r: Option<Timestamp>)
    ensures
        r == rfc3339_instant(text@),
{
    match chrono::DateTime::parse_from_rfc3339(text) {
        Ok(at) => Some(Timestamp { secs: at.timestamp(), nanos: at.timestamp_subsec_nanos() }),
        Err(_) => None,
    }
}

/// `chrono::DateTime::from_timestamp`, written out with `to_string`.
/// Trusted: the result is a function of the point in time.
#[verifier::external_body]
fn utc_to_string(at: Timestamp) -> (r: Option<String>)
    ensures
        match r {
            Some(text) => utc_text(at) == Some(text@),
            None => utc_text(at) is None,
        },
{
    match chrono::DateTime::from_timestamp(at.secs, at.nanos) {
        Some(at) => Some(at.to_string()),
        None => None,
    }
}

/// `chrono::Utc::now`, as seconds and nanoseconds. Nothing is known of what
/// the clock says.
#[verifier::external_body]
fn utc_now() -> (r: Timestamp) {
    let at = chrono::Utc::now();
    Timestamp { secs: at.timestamp(), nanos: at.timestamp_subsec_nanos() }
}

impl Timestamp {
    /// Reads an RFC 3339 date and time, such as `2012-04-23T18:25:43.511Z`.
    pub fn parse(text: &str) -> (r: Option<Timestamp>)
        ensures
            r == rfc3339_instant(text@),
    {
        parse_from_rfc3339(text)
    }

    /// The current time.
    pub fn now() -> Timestamp {
        utc_now()
    }

    /// The date and time in UTC, such as `1970-01-01 00:00:00 UTC`; the empty
    /// text for a point in time that no calendar date stands for.
    pub fn to_string(&self) -> (r: String)
        ensures
            r@ == match utc_text(*self) {
                Some(text) => text,
                None => Seq::<char>::empty(),
            },
    {
        match utc_to_string(*self) {
            Some(text) => text,
            None => String::new(),
        }
    }
}

} // verus!
