//! The conflict-checking store: the authoritative set of reservations with
//! the guarantee that no two active reservations on one resource overlap.
//!
//! The store is the single serialization point for a resource's
//! reservations: the overlap check and the insertion happen inside one
//! `&mut` call, so no caller can observe a state in which both of two
//! overlapping active claims were accepted.

use vstd::prelude::*;
use crate::error::spec_conflict_between;
use crate::error::conflict_between;
use crate::error::ReservationError;
use crate::types::spec_active;
use crate::types::Reservation;
use crate::types::RsvpStatus;
use crate::window::spec_overlaps;
use crate::window::spec_valid_window;

verus! {

/// A record the store may hold: a valid window, non-empty user and resource
/// ids, and a settled (non-`Unknown`) status.
pub open spec fn row_valid(r: Reservation) -> bool {
    &&& spec_valid_window(r.window)
    &&& r.user_id@.len() > 0
    &&& r.resource_id@.len() > 0
    &&& !(r.status is Unknown)
}

/// An existing record blocks an incoming one when both are active, claim the
/// same resource, and their windows overlap. Ids play no part.
pub open spec fn conflicting(existing: Reservation, incoming: Reservation) -> bool {
    &&& spec_active(existing.status)
    &&& spec_active(incoming.status)
    &&& existing.resource_id@ == incoming.resource_id@
    &&& spec_overlaps(existing.window, incoming.window)
}

/// Ids strictly increase along the row order (so they are unique and the
/// rows are sorted by id).
pub open spec fn sorted_ids(rows: Seq<Reservation>) -> bool {
    forall|i: int, j: int|
        #![trigger rows[i].id, rows[j].id]
        0 <= i < j < rows.len() ==> rows[i].id < rows[j].id
}

/// No two distinct rows block each other: the core safety invariant.
pub open spec fn no_conflicts(rows: Seq<Reservation>) -> bool {
    forall|i: int, j: int|
        #![trigger conflicting(rows[i], rows[j])]
        0 <= i < j < rows.len() ==> !conflicting(rows[i], rows[j])
}

/// Well-formedness of a row set under an id watermark: every row is valid,
/// ids are positive, below the watermark and sorted, and no two rows
/// conflict.
pub open spec fn rows_wf(rows: Seq<Reservation>, next_id: int) -> bool {
    &&& forall|i: int| 0 <= i < rows.len() ==> row_valid(#[trigger] rows[i])
    &&& forall|i: int| 0 <= i < rows.len() ==> 0 < #[trigger] rows[i].id < next_id
    &&& sorted_ids(rows)
    &&& no_conflicts(rows)
}

/// Some row carries the id.
pub open spec fn has_id(rows: Seq<Reservation>, id: i64) -> bool {
    exists|i: int| 0 <= i < rows.len() && #[trigger] rows[i].id == id
}

/// The position of the row carrying the id (meaningful under `has_id` with
/// sorted ids, which make it unique).
pub open spec fn idx_of(rows: Seq<Reservation>, id: i64) -> int {
    choose|i: int| 0 <= i < rows.len() && #[trigger] rows[i].id == id
}

/// The first stored row blocking the incoming one, if any.
pub open spec fn find_conflict(rows: Seq<Reservation>, incoming: Reservation) -> Option<Reservation>
    decreases rows.len(),
{
    if rows.len() == 0 {
        None
    } else if conflicting(rows[0], incoming) {
        Some(rows[0])
    } else {
        find_conflict(rows.drop_first(), incoming)
    }
}

/// When the scan finds nothing, no row blocks the incoming one.
pub proof fn lemma_find_conflict_none(rows: Seq<Reservation>, incoming: Reservation)
    requires
        find_conflict(rows, incoming) is None,
    ensures
        forall|k: int| 0 <= k < rows.len() ==> !conflicting(#[trigger] rows[k], incoming),
    decreases rows.len(),
{
    if rows.len() > 0 {
        lemma_find_conflict_none(rows.drop_first(), incoming);
        assert forall|k: int| 0 <= k < rows.len() implies !conflicting(#[trigger] rows[k], incoming) by {
            if k > 0 {
                assert(rows.drop_first()[k - 1] == rows[k]);
            }
        }
    }
}

/// A row's own position is the one `idx_of` names, as ids are unique.
pub proof fn lemma_idx_of_at(rows: Seq<Reservation>, i: int)
    requires
        sorted_ids(rows),
        0 <= i < rows.len(),
    ensures
        has_id(rows, rows[i].id),
        idx_of(rows, rows[i].id) == i,
{
    let id = rows[i].id;
    assert(has_id(rows, id));
    let j = idx_of(rows, id);
    assert(0 <= j < rows.len() && rows[j].id == id);
    if j < i {
        assert(rows[j].id < rows[i].id);
    } else if i < j {
        assert(rows[i].id < rows[j].id);
    }
}

/// Replacing a row by one with the same id, resource, window and activity
/// keeps the row set well-formed.
pub proof fn lemma_wf_update(rows: Seq<Reservation>, next_id: int, i: int, r: Reservation)
    requires
        rows_wf(rows, next_id),
        0 <= i < rows.len(),
        r.id == rows[i].id,
        r.resource_id@ == rows[i].resource_id@,
        r.window == rows[i].window,
        spec_active(r.status) == spec_active(rows[i].status),
        row_valid(r),
    ensures
        rows_wf(rows.update(i, r), next_id),
{
    let rows2 = rows.update(i, r);
    assert forall|p: int, q: int|
        0 <= p < q < rows2.len() implies !conflicting(rows2[p], rows2[q]) by {
        assert(!conflicting(rows[p], rows[q]));
    }
    assert forall|p: int, q: int|
        0 <= p < q < rows2.len() implies rows2[p].id < rows2[q].id by {
        assert(rows[p].id < rows[q].id);
    }
}

/// Removing a row keeps the row set well-formed.
pub proof fn lemma_wf_remove(rows: Seq<Reservation>, next_id: int, i: int)
    requires
        rows_wf(rows, next_id),
        0 <= i < rows.len(),
    ensures
        rows_wf(rows.remove(i), next_id),
{
    let rows2 = rows.remove(i);
    assert forall|k: int| 0 <= k < rows2.len() implies row_valid(#[trigger] rows2[k])
        && 0 < rows2[k].id < next_id by {
        if k < i {
            assert(rows2[k] == rows[k]);
        } else {
            assert(rows2[k] == rows[k + 1]);
        }
    }
    assert forall|p: int, q: int|
        #![trigger rows2[p].id, rows2[q].id]
        0 <= p < q < rows2.len() implies rows2[p].id < rows2[q].id by {
        let p0: int = if p < i { p } else { p + 1 };
        let q0: int = if q < i { q } else { q + 1 };
        assert(rows2[p] == rows[p0]);
        assert(rows2[q] == rows[q0]);
        assert(rows[p0].id < rows[q0].id);
    }
    assert forall|p: int, q: int|
        #![trigger conflicting(rows2[p], rows2[q])]
        0 <= p < q < rows2.len() implies !conflicting(rows2[p], rows2[q]) by {
        let p0: int = if p < i { p } else { p + 1 };
        let q0: int = if q < i { q } else { q + 1 };
        assert(rows2[p] == rows[p0]);
        assert(rows2[q] == rows[q0]);
        assert(!conflicting(rows[p0], rows[q0]));
    }
}

/// Law: in a well-formed store, the windows of any two distinct active
/// reservations on the same resource never overlap.
pub proof fn lemma_active_windows_disjoint(s: &ReservationStore, i: int, j: int)
    requires
        s.wf(),
        0 <= i < s.rows@.len(),
        0 <= j < s.rows@.len(),
        i != j,
        spec_active(s.rows@[i].status),
        spec_active(s.rows@[j].status),
        s.rows@[i].resource_id@ == s.rows@[j].resource_id@,
    ensures
        !spec_overlaps(s.rows@[i].window, s.rows@[j].window),
{
    let rows = s.rows@;
    if i < j {
        assert(!conflicting(rows[i], rows[j]));
    } else {
        assert(!conflicting(rows[j], rows[i]));
        assert(!spec_overlaps(rows[j].window, rows[i].window));
    }
}

/// Exec mirror of [`conflicting`].
fn is_conflicting(existing: &Reservation, incoming: &Reservation) -> (b: bool)
    ensures
        b == conflicting(*existing, *incoming),
{
    existing.status.is_active() && incoming.status.is_active()
        && existing.resource_id == incoming.resource_id
        && existing.window.overlaps(&incoming.window)
}

/// Position of the row carrying `id`, if any.
fn find_index(rows: &Vec<Reservation>, id: i64) -> (r: Option<usize>)
    ensures
        match r {
            Option::Some(i) => 0 <= i < rows@.len() && rows@[i as int].id == id,
            Option::None => !has_id(rows@, id),
        },
{
    let mut i: usize = 0;
    while i < rows.len()
        invariant
            i <= rows@.len(),
            forall|k: int| 0 <= k < i ==> #[trigger] rows@[k].id != id,
        decreases rows@.len() - i,
    {
        if rows[i].id == id {
            return Some(i);
        }
        i += 1;
    }
    None
}

/// The reservation store. `rows` is ordered by id; `next_id` is the id the
/// next accepted reservation will get, larger than every id ever assigned,
/// so ids are never reused.
pub struct ReservationStore {
    pub rows: Vec<Reservation>,
    pub next_id: i64,
}

impl ReservationStore {
    /// Well-formedness: the row set is well-formed under the watermark.
    pub open spec fn wf(&self) -> bool {
        &&& rows_wf(self.rows@, self.next_id as int)
        &&& self.next_id >= 1
    }

    /// An empty store; the first assigned id will be 1.
    pub fn new() -> (s: ReservationStore)
        ensures
            s.wf(),
            s.rows@.len() == 0,
            s.next_id == 1,
    {
        ReservationStore { rows: Vec::new(), next_id: 1 }
    }

    /// Inserts a validated reservation, assigning it the next id, unless an
    /// active stored reservation on the same resource overlaps it: the check
    /// and the insertion are one atomic operation. A rejection reports both
    /// competing windows, the first blocking row in id order standing for
    /// the existing side.
    pub fn insert(&mut self, rsvp: Reservation) -> (r: Result<Reservation, ReservationError>)
        requires
            old(self).wf(),
            row_valid(rsvp),
        ensures
            final(self).wf(),
            match r {
                Result::Ok(stored) => {
                    &&& find_conflict(old(self).rows@, rsvp) is None
                    &&& old(self).next_id < i64::MAX
                    &&& stored == (Reservation { id: old(self).next_id, ..rsvp })
                    &&& final(self).rows@ == old(self).rows@.push(stored)
                    &&& final(self).next_id == old(self).next_id + 1
                },
                Result::Err(ReservationError::Conflict(c)) => {
                    &&& *final(self) == *old(self)
                    &&& find_conflict(old(self).rows@, rsvp) matches Some(ex)
                        && c == spec_conflict_between(rsvp, ex)
                },
                Result::Err(ReservationError::Unavailable) => {
                    &&& *final(self) == *old(self)
                    &&& find_conflict(old(self).rows@, rsvp) is None
                    &&& old(self).next_id == i64::MAX
                },
                Result::Err(_) => false,
            },
    {
        let ghost rows0 = self.rows@;
        proof {
            assert(rows0.skip(0) =~= rows0);
        }
        let mut i: usize = 0;
        while i < self.rows.len()
            invariant
                self == old(self),
                old(self).wf(),
                row_valid(rsvp),
                rows0 == self.rows@,
                i <= rows0.len(),
                find_conflict(rows0, rsvp) == find_conflict(rows0.skip(i as int), rsvp),
            decreases rows0.len() - i,
        {
            if is_conflicting(&self.rows[i], &rsvp) {
                proof {
                    assert(rows0.skip(i as int)[0] == rows0[i as int]);
                    assert(find_conflict(rows0.skip(i as int), rsvp) == Some(rows0[i as int]));
                }
                let c = conflict_between(&rsvp, &self.rows[i]);
                return Err(ReservationError::Conflict(c));
            }
            proof {
                assert(rows0.skip(i as int)[0] == rows0[i as int]);
                assert(rows0.skip(i as int).drop_first() =~= rows0.skip(i + 1 as int));
            }
            i += 1;
        }
        proof {
            assert(rows0.skip(rows0.len() as int) =~= Seq::<Reservation>::empty());
            assert(find_conflict(rows0, rsvp) is None);
        }
        if self.next_id == i64::MAX {
            return Err(ReservationError::Unavailable);
        }
        let stored = Reservation { id: self.next_id, ..rsvp };
        self.rows.push(stored.duplicate());
        self.next_id = self.next_id + 1;
        proof {
            let rows1 = self.rows@;
            lemma_find_conflict_none(rows0, rsvp);
            assert forall|p: int, q: int|
                #![trigger conflicting(rows1[p], rows1[q])]
                0 <= p < q < rows1.len() implies !conflicting(rows1[p], rows1[q]) by {
                if q < rows0.len() {
                    assert(!conflicting(rows0[p], rows0[q]));
                } else {
                    assert(rows1[q] == stored);
                    assert(!conflicting(rows0[p], rsvp));
                }
            }
            assert forall|p: int, q: int|
                #![trigger rows1[p].id, rows1[q].id]
                0 <= p < q < rows1.len() implies rows1[p].id < rows1[q].id by {
                if q < rows0.len() {
                    assert(rows0[p].id < rows0[q].id);
                }
            }
        }
        Ok(stored)
    }

    /// Atomic compare-and-set from `Pending` to `Confirmed`. A record that
    /// is absent or not currently pending yields `NotFound`; the two cases
    /// are deliberately indistinguishable.
    pub fn confirm_if_pending(&mut self, id: i64) -> (r: Result<Reservation, ReservationError>)
        requires
            old(self).wf(),
        ensures
            final(self).wf(),
            final(self).next_id == old(self).next_id,
            match r {
                Result::Ok(updated) => {
                    &&& has_id(old(self).rows@, id)
                    &&& old(self).rows@[idx_of(old(self).rows@, id)].status is Pending
                    &&& updated == (Reservation {
                        status: RsvpStatus::Confirmed,
                        ..old(self).rows@[idx_of(old(self).rows@, id)]
                    })
                    &&& final(self).rows@
                        == old(self).rows@.update(idx_of(old(self).rows@, id), updated)
                },
                Result::Err(ReservationError::NotFound) => {
                    &&& *final(self) == *old(self)
                    &&& !(has_id(old(self).rows@, id)
                        && old(self).rows@[idx_of(old(self).rows@, id)].status is Pending)
                },
                Result::Err(_) => false,
            },
    {
        match find_index(&self.rows, id) {
            Option::None => Err(ReservationError::NotFound),
            Option::Some(i) => {
                proof {
                    lemma_idx_of_at(self.rows@, i as int);
                }
                let is_pending = match self.rows[i].status {
                    RsvpStatus::Pending => true,
                    _ => false,
                };
                if !is_pending {
                    Err(ReservationError::NotFound)
                } else {
                    let mut updated = self.rows[i].duplicate();
                    updated.status = RsvpStatus::Confirmed;
                    proof {
                        lemma_wf_update(self.rows@, self.next_id as int, i as int, updated);
                    }
                    self.rows.set(i, updated.duplicate());
                    Ok(updated)
                }
            },
        }
    }

    /// Replaces the note of the record carrying `id`, whatever its status.
    pub fn update_note(&mut self, id: i64, note: String) -> (r: Result<Reservation, ReservationError>)
        requires
            old(self).wf(),
        ensures
            final(self).wf(),
            final(self).next_id == old(self).next_id,
            match r {
                Result::Ok(updated) => {
                    &&& has_id(old(self).rows@, id)
                    &&& updated == (Reservation {
                        note: note,
                        ..old(self).rows@[idx_of(old(self).rows@, id)]
                    })
                    &&& final(self).rows@
                        == old(self).rows@.update(idx_of(old(self).rows@, id), updated)
                },
                Result::Err(ReservationError::NotFound) => {
                    &&& *final(self) == *old(self)
                    &&& !has_id(old(self).rows@, id)
                },
                Result::Err(_) => false,
            },
    {
        match find_index(&self.rows, id) {
            Option::None => Err(ReservationError::NotFound),
            Option::Some(i) => {
                proof {
                    lemma_idx_of_at(self.rows@, i as int);
                }
                let mut updated = self.rows[i].duplicate();
                updated.note = note;
                proof {
                    lemma_wf_update(self.rows@, self.next_id as int, i as int, updated);
                }
                self.rows.set(i, updated.duplicate());
                Ok(updated)
            },
        }
    }

    /// Point lookup by id.
    pub fn get(&self, id: i64) -> (r: Result<Reservation, ReservationError>)
        requires
            self.wf(),
        ensures
            match r {
                Result::Ok(found) => {
                    &&& has_id(self.rows@, id)
                    &&& found == self.rows@[idx_of(self.rows@, id)]
                },
                Result::Err(ReservationError::NotFound) => !has_id(self.rows@, id),
                Result::Err(_) => false,
            },
    {
        match find_index(&self.rows, id) {
            Option::None => Err(ReservationError::NotFound),
            Option::Some(i) => {
                proof {
                    lemma_idx_of_at(self.rows@, i as int);
                }
                Ok(self.rows[i].duplicate())
            },
        }
    }

    /// Hard delete by id, returning the last-known record.
    pub fn delete(&mut self, id: i64) -> (r: Result<Reservation, ReservationError>)
        requires
            old(self).wf(),
        ensures
            final(self).wf(),
            final(self).next_id == old(self).next_id,
            match r {
                Result::Ok(removed) => {
                    &&& has_id(old(self).rows@, id)
                    &&& removed == old(self).rows@[idx_of(old(self).rows@, id)]
                    &&& final(self).rows@ == old(self).rows@.remove(idx_of(old(self).rows@, id))
                },
                Result::Err(ReservationError::NotFound) => {
                    &&& *final(self) == *old(self)
                    &&& !has_id(old(self).rows@, id)
                },
                Result::Err(_) => false,
            },
    {
        match find_index(&self.rows, id) {
            Option::None => Err(ReservationError::NotFound),
            Option::Some(i) => {
                proof {
                    lemma_idx_of_at(self.rows@, i as int);
                    lemma_wf_remove(self.rows@, self.next_id as int, i as int);
                }
                let removed = self.rows.remove(i);
                Ok(removed)
            },
        }
    }
}

} // verus!
