//! Parsing of zoned date-time strings (`2022-12-25T15:00:00-0700`, with or
//! without a colon in the offset) into epoch seconds, and the construction
//! of validated time windows from such strings.

use vstd::prelude::*;
use crate::error::ReservationError;
use crate::window::TimeWindow;

verus! {

/// The instant, in seconds since the Unix epoch, that the string denotes in
/// the format `%Y-%m-%dT%H:%M:%S%z`, or nothing when it denotes none. The
/// result depends on the characters alone.
pub uninterp spec fn parsed_instant(s: Seq<char>) -> Option<int>;

/// Relies on chrono's `DateTime::parse_from_str` with the format
/// `%Y-%m-%dT%H:%M:%S%z`, and on `DateTime::timestamp`: parsing consults
/// nothing but the string, so equal strings yield equal instants.
#[verifier::external_body]
fn parse_instant(s: &str) -> (r: Option<i64>)
    ensures
        match r {
            Option::Some(t) => parsed_instant(s@) == Some(t as int),
            Option::None => parsed_instant(s@) is None,
        },
{
    chrono::DateTime::parse_from_str(s, "%Y-%m-%dT%H:%M:%S%z")
        .ok()
        .map(|d| d.timestamp())
}

impl TimeWindow {
    /// Builds the window `[start, end)` from two zoned date-time strings.
    /// The window is returned exactly when both strings parse and the
    /// denoted window is valid; everything else is `InvalidTime`.
    pub fn parse(start: &str, end: &str) -> (r: Result<TimeWindow, ReservationError>)
        ensures
            match r {
                Result::Ok(w) => {
                    &&& parsed_instant(start@) == Some(w.start as int)
                    &&& parsed_instant(end@) == Some(w.end as int)
                    &&& w.start < w.end
                },
                Result::Err(e) => {
                    &&& e is InvalidTime
                    &&& match (parsed_instant(start@), parsed_instant(end@)) {
                        (Some(s), Some(t)) => s >= t,
                        _ => true,
                    }
                },
            },
    {
        let s = parse_instant(start);
        let t = parse_instant(end);
        match (s, t) {
            (Option::Some(s), Option::Some(t)) => {
                if s < t {
                    Ok(TimeWindow { start: s, end: t })
                } else {
                    Err(ReservationError::InvalidTime)
                }
            },
            _ => Err(ReservationError::InvalidTime),
        }
    }
}

} // verus!
