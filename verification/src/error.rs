//! The error taxonomy of the reservation manager.

use vstd::prelude::*;
use crate::types::Reservation;

verus! {

/// One side of a reported conflict: a resource and the half-open window
/// claimed on it.
#[derive(Clone, Debug, PartialEq, Eq)]
pub struct ReservationWindow {
    pub rid: String,
    pub start: i64,
    pub end: i64,
}

/// Both competing claims of a rejected reservation: the window the caller
/// asked for and the active window already stored on the same resource.
#[derive(Clone, Debug, PartialEq, Eq)]
pub struct ReservationConflict {
    pub new: ReservationWindow,
    pub old: ReservationWindow,
}

/// Everything a reservation operation can fail with. Invalid input is
/// rejected before any store access; `Conflict` carries both competing
/// windows; `NotFound` covers both an absent record and a failed status
/// guard; `Unavailable` is a storage fault (here: an exhausted id space).
#[derive(Clone, Debug, PartialEq, Eq)]
pub enum ReservationError {
    InvalidTime,
    InvalidUserId,
    InvalidResourceId,
    InvalidId,
    InvalidPageSize,
    Conflict(ReservationConflict),
    NotFound,
    Unavailable,
}

/// The conflict report for an incoming reservation rejected against an
/// existing one.
pub open spec fn spec_conflict_between(incoming: Reservation, existing: Reservation) -> ReservationConflict {
    ReservationConflict {
        new: ReservationWindow {
            rid: incoming.resource_id,
            start: incoming.window.start,
            end: incoming.window.end,
        },
        old: ReservationWindow {
            rid: existing.resource_id,
            start: existing.window.start,
            end: existing.window.end,
        },
    }
}

/// Builds the conflict report of [`spec_conflict_between`] as a value.
pub fn conflict_between(incoming: &Reservation, existing: &Reservation) -> (c: ReservationConflict)
    ensures
        c == spec_conflict_between(*incoming, *existing),
{
    ReservationConflict {
        new: ReservationWindow {
            rid: incoming.resource_id.clone(),
            start: incoming.window.start,
            end: incoming.window.end,
        },
        old: ReservationWindow {
            rid: existing.resource_id.clone(),
            start: existing.window.start,
            end: existing.window.end,
        },
    }
}

} // verus!
