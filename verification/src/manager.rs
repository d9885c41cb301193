//! The reservation manager: the public operation set over the
//! conflict-checking store, the query engine and the pagination engine.
//!
//! The manager validates input and rejects it before any store access, then
//! delegates: overlap enforcement and row access to the store, listing to
//! the engines. The [`Rsvp`] trait is the contract surface of record; the
//! in-memory [`ReservationManager`] is its implementation, a serialization
//! point in front of the store as a whole.

use vstd::prelude::*;
use crate::error::spec_conflict_between;
use crate::error::ReservationError;
use crate::pager::page_post;
use crate::pager::run_filter;
use crate::pager::spec_page_size;
use crate::query::ordered_query_matches;
use crate::query::run_query;
use crate::store::find_conflict;
use crate::store::has_id;
use crate::store::idx_of;
use crate::store::row_valid;
use crate::store::ReservationStore;
use crate::types::FilterPager;
use crate::types::Reservation;
use crate::types::ReservationFilter;
use crate::types::ReservationQuery;
use crate::types::RsvpStatus;
use crate::types::DEFAULT_PAGE_SIZE;
use crate::window::spec_valid_window;

verus! {

/// `Unknown` stands for an absent status and defaults to `Pending`; every
/// settled status is kept.
pub open spec fn spec_normalize_status(s: RsvpStatus) -> RsvpStatus {
    if s is Unknown {
        RsvpStatus::Pending
    } else {
        s
    }
}

/// A reservation request with its status settled.
pub open spec fn spec_normalized(req: Reservation) -> Reservation {
    Reservation { status: spec_normalize_status(req.status), ..req }
}

/// What `reserve` does, from the store state `(rows0, fresh0)` to
/// `(rows1, fresh1)`: invalid input is rejected unchanged, a blocked request
/// is rejected with both competing windows, an exhausted id space is a
/// storage fault, and otherwise the normalized request enters the store
/// under the fresh id.
pub open spec fn reserve_post(
    rows0: Seq<Reservation>,
    fresh0: int,
    rows1: Seq<Reservation>,
    fresh1: int,
    req: Reservation,
    r: Result<Reservation, ReservationError>,
) -> bool {
    if !spec_valid_window(req.window) {
        r matches Err(ReservationError::InvalidTime) && rows1 == rows0 && fresh1 == fresh0
    } else if req.user_id@.len() == 0 {
        r matches Err(ReservationError::InvalidUserId) && rows1 == rows0 && fresh1 == fresh0
    } else if req.resource_id@.len() == 0 {
        r matches Err(ReservationError::InvalidResourceId) && rows1 == rows0 && fresh1 == fresh0
    } else {
        let n = spec_normalized(req);
        match find_conflict(rows0, n) {
            Option::Some(ex) => {
                &&& r matches Err(ReservationError::Conflict(c))
                    && c == spec_conflict_between(n, ex)
                &&& rows1 == rows0
                &&& fresh1 == fresh0
            },
            Option::None => {
                if fresh0 == i64::MAX as int {
                    r matches Err(ReservationError::Unavailable) && rows1 == rows0
                        && fresh1 == fresh0
                } else {
                    &&& r matches Ok(stored) && stored == (Reservation {
                        id: fresh0 as i64,
                        ..n
                    }) && rows1 == rows0.push(stored)
                    &&& fresh1 == fresh0 + 1
                }
            },
        }
    }
}

/// What `change_status` does: a malformed id is rejected before the store;
/// a record currently pending is confirmed in place; anything else is
/// `NotFound`, absence and a failed guard deliberately alike.
pub open spec fn change_status_post(
    rows0: Seq<Reservation>,
    rows1: Seq<Reservation>,
    id: i64,
    r: Result<Reservation, ReservationError>,
) -> bool {
    if id <= 0 {
        r matches Err(ReservationError::InvalidId) && rows1 == rows0
    } else if has_id(rows0, id) && rows0[idx_of(rows0, id)].status is Pending {
        &&& r matches Ok(u) && u == (Reservation {
            status: RsvpStatus::Confirmed,
            ..rows0[idx_of(rows0, id)]
        }) && rows1 == rows0.update(idx_of(rows0, id), u)
    } else {
        r matches Err(ReservationError::NotFound) && rows1 == rows0
    }
}

/// What `update_note` does: the note of the record is replaced, whatever
/// its status; nothing else changes.
pub open spec fn update_note_post(
    rows0: Seq<Reservation>,
    rows1: Seq<Reservation>,
    id: i64,
    note: String,
    r: Result<Reservation, ReservationError>,
) -> bool {
    if id <= 0 {
        r matches Err(ReservationError::InvalidId) && rows1 == rows0
    } else if has_id(rows0, id) {
        &&& r matches Ok(u) && u == (Reservation {
            note: note,
            ..rows0[idx_of(rows0, id)]
        }) && rows1 == rows0.update(idx_of(rows0, id), u)
    } else {
        r matches Err(ReservationError::NotFound) && rows1 == rows0
    }
}

/// What `get` does: the stored record under the id, read-only.
pub open spec fn get_post(
    rows: Seq<Reservation>,
    id: i64,
    r: Result<Reservation, ReservationError>,
) -> bool {
    if id <= 0 {
        r matches Err(ReservationError::InvalidId)
    } else if has_id(rows, id) {
        r matches Ok(found) && found == rows[idx_of(rows, id)]
    } else {
        r matches Err(ReservationError::NotFound)
    }
}

/// What `delete` does: the record leaves the store and its last-known value
/// is returned.
pub open spec fn delete_post(
    rows0: Seq<Reservation>,
    rows1: Seq<Reservation>,
    id: i64,
    r: Result<Reservation, ReservationError>,
) -> bool {
    if id <= 0 {
        r matches Err(ReservationError::InvalidId) && rows1 == rows0
    } else if has_id(rows0, id) {
        &&& r matches Ok(removed) && removed == rows0[idx_of(rows0, id)]
            && rows1 == rows0.remove(idx_of(rows0, id))
    } else {
        r matches Err(ReservationError::NotFound) && rows1 == rows0
    }
}

/// What `filter` does: a non-positive page size is rejected, otherwise one
/// page and its pager are computed under the effective page size.
pub open spec fn filter_post(
    rows: Seq<Reservation>,
    f: ReservationFilter,
    r: Result<(FilterPager, Vec<Reservation>), ReservationError>,
) -> bool {
    if f.page_size matches Some(n) && n <= 0 {
        r matches Err(ReservationError::InvalidPageSize)
    } else {
        r matches Ok(pr) && page_post(rows, f, spec_page_size(f.page_size), pr.0, pr.1@)
    }
}

/// The reservation service: the operation set every backing implementation
/// answers for. `rows()` is the stored reservation set in id order,
/// `fresh_id()` the next id to be assigned, `inv()` the implementation's
/// well-formedness (which every operation preserves).
pub trait Rsvp {
    /// The reservations currently stored, in ascending id order.
    spec fn rows(&self) -> Seq<Reservation>;

    /// The id the next accepted reservation will receive.
    spec fn fresh_id(&self) -> int;

    /// Internal well-formedness; established by construction and preserved
    /// by every operation.
    spec fn inv(&self) -> bool;

    /// Makes a reservation: validates it, checks for overlapping active
    /// reservations on the resource, and stores it under a fresh id.
    fn reserve(&mut self, rsvp: Reservation) -> (r: Result<Reservation, ReservationError>)
        requires
            old(self).inv(),
        ensures
            final(self).inv(),
            reserve_post(
                old(self).rows(),
                old(self).fresh_id(),
                final(self).rows(),
                final(self).fresh_id(),
                rsvp,
                r,
            ),
    ;

    /// Confirms a reservation that is currently pending.
    fn change_status(&mut self, id: i64) -> (r: Result<Reservation, ReservationError>)
        requires
            old(self).inv(),
        ensures
            final(self).inv(),
            final(self).fresh_id() == old(self).fresh_id(),
            change_status_post(old(self).rows(), final(self).rows(), id, r),
    ;

    /// Replaces the note of a reservation.
    fn update_note(&mut self, id: i64, note: String) -> (r: Result<Reservation, ReservationError>)
        requires
            old(self).inv(),
        ensures
            final(self).inv(),
            final(self).fresh_id() == old(self).fresh_id(),
            update_note_post(old(self).rows(), final(self).rows(), id, note, r),
    ;

    /// Reads a reservation by id.
    fn get(&self, id: i64) -> (r: Result<Reservation, ReservationError>)
        requires
            self.inv(),
        ensures
            get_post(self.rows(), id, r),
    ;

    /// Deletes a reservation by id, returning its last-known value.
    fn delete(&mut self, id: i64) -> (r: Result<Reservation, ReservationError>)
        requires
            old(self).inv(),
        ensures
            final(self).inv(),
            final(self).fresh_id() == old(self).fresh_id(),
            delete_post(old(self).rows(), final(self).rows(), id, r),
    ;

    /// Lists every reservation matching the query, in the asked id order.
    fn query(&self, q: &ReservationQuery) -> (out: Vec<Reservation>)
        requires
            self.inv(),
        ensures
            out@ == ordered_query_matches(self.rows(), *q),
    ;

    /// Computes one page of the filtered reservation set and the cursors of
    /// its neighbouring pages.
    fn filter(&self, f: &ReservationFilter) -> (r: Result<
        (FilterPager, Vec<Reservation>),
        ReservationError,
    >)
        requires
            self.inv(),
        ensures
            filter_post(self.rows(), *f, r),
    ;
}

/// The in-memory reservation manager: owns the conflict-checking store and
/// serializes every operation on it.
pub struct ReservationManager {
    pub store: ReservationStore,
}

impl ReservationManager {
    /// A manager over an empty store; the first assigned id will be 1.
    pub fn new() -> (m: ReservationManager)
        ensures
            m.inv(),
            m.rows().len() == 0,
            m.fresh_id() == 1,
    {
        ReservationManager { store: ReservationStore::new() }
    }
}

impl Rsvp for ReservationManager {
    open spec fn rows(&self) -> Seq<Reservation> {
        self.store.rows@
    }

    open spec fn fresh_id(&self) -> int {
        self.store.next_id as int
    }

    open spec fn inv(&self) -> bool {
        self.store.wf()
    }

    fn reserve(&mut self, rsvp: Reservation) -> (r: Result<Reservation, ReservationError>) {
        if !rsvp.window.is_valid() {
            return Err(ReservationError::InvalidTime);
        }
        if rsvp.user_id.as_str().is_empty() {
            return Err(ReservationError::InvalidUserId);
        }
        if rsvp.resource_id.as_str().is_empty() {
            return Err(ReservationError::InvalidResourceId);
        }
        let status = match rsvp.status {
            RsvpStatus::Unknown => RsvpStatus::Pending,
            s => s,
        };
        let normalized = Reservation { status, ..rsvp };
        proof {
            assert(normalized == spec_normalized(rsvp));
            assert(row_valid(normalized));
        }
        self.store.insert(normalized)
    }

    fn change_status(&mut self, id: i64) -> (r: Result<Reservation, ReservationError>) {
        if id <= 0 {
            return Err(ReservationError::InvalidId);
        }
        self.store.confirm_if_pending(id)
    }

    fn update_note(&mut self, id: i64, note: String) -> (r: Result<Reservation, ReservationError>) {
        if id <= 0 {
            return Err(ReservationError::InvalidId);
        }
        self.store.update_note(id, note)
    }

    fn get(&self, id: i64) -> (r: Result<Reservation, ReservationError>) {
        if id <= 0 {
            return Err(ReservationError::InvalidId);
        }
        self.store.get(id)
    }

    fn delete(&mut self, id: i64) -> (r: Result<Reservation, ReservationError>) {
        if id <= 0 {
            return Err(ReservationError::InvalidId);
        }
        self.store.delete(id)
    }

    fn query(&self, q: &ReservationQuery) -> (out: Vec<Reservation>) {
        run_query(&self.store.rows, q)
    }

    fn filter(&self, f: &ReservationFilter) -> (r: Result<
        (FilterPager, Vec<Reservation>),
        ReservationError,
    >) {
        let ps = match f.page_size {
            Option::Some(n) => {
                if n <= 0 {
                    return Err(ReservationError::InvalidPageSize);
                }
                n
            },
            Option::None => DEFAULT_PAGE_SIZE,
        };
        Ok(run_filter(&self.store.rows, f, ps))
    }
}

} // verus!
