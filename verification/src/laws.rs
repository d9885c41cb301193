//! Cross-operation laws of the reservation manager, proved from the
//! operation contracts alone.

use vstd::prelude::*;
use crate::manager::change_status_post;
use crate::manager::delete_post;
use crate::manager::get_post;
use crate::manager::reserve_post;
use crate::query::ordered_query_matches;
use crate::query::query_matches;
use crate::query::spec_matches_query;
use crate::store::idx_of;
use crate::store::lemma_idx_of_at;
use crate::store::rows_wf;
use crate::store::sorted_ids;
use crate::error::ReservationError;
use crate::types::Reservation;
use crate::types::ReservationQuery;
use crate::types::RsvpStatus;
use crate::types::StatusFilter;
use crate::window::spec_overlaps;
use crate::window::TimeWindow;

verus! {

/// Law: confirming a freshly reserved, still pending record succeeds and
/// yields the record in `Confirmed` status.
pub proof fn lemma_confirm_fresh_reservation(
    rows0: Seq<Reservation>,
    fresh0: int,
    rows1: Seq<Reservation>,
    fresh1: int,
    req: Reservation,
    r1: Result<Reservation, ReservationError>,
    rows2: Seq<Reservation>,
    r2: Result<Reservation, ReservationError>,
)
    requires
        rows_wf(rows0, fresh0),
        1 <= fresh0 <= i64::MAX,
        reserve_post(rows0, fresh0, rows1, fresh1, req, r1),
        r1 matches Ok(stored) && stored.status is Pending,
        change_status_post(rows1, rows2, (r1->Ok_0).id, r2),
    ensures
        r2 matches Ok(u) && u.status is Confirmed && u.id == (r1->Ok_0).id,
{
    let stored = r1->Ok_0;
    assert(stored.id == fresh0 as i64);
    assert(rows1 == rows0.push(stored));
    let n = rows0.len() as int;
    assert forall|i: int, j: int|
        #![trigger rows1[i].id, rows1[j].id]
        0 <= i < j < rows1.len() implies rows1[i].id < rows1[j].id by {
        if j < n {
            assert(rows0[i].id < rows0[j].id);
        } else {
            assert(rows1[i] == rows0[i]);
            assert(rows1[j] == stored);
            assert(0 < rows0[i].id < fresh0);
        }
    }
    assert(rows1[n].id == stored.id);
    lemma_idx_of_at(rows1, n);
    assert(rows1[idx_of(rows1, stored.id)].status is Pending);
}

/// Law: confirming the same record twice fails the second time with
/// `NotFound`, and changes nothing the second time.
pub proof fn lemma_confirm_twice(
    rows0: Seq<Reservation>,
    rows1: Seq<Reservation>,
    rows2: Seq<Reservation>,
    id: i64,
    r1: Result<Reservation, ReservationError>,
    r2: Result<Reservation, ReservationError>,
)
    requires
        sorted_ids(rows0),
        change_status_post(rows0, rows1, id, r1),
        r1 is Ok,
        change_status_post(rows1, rows2, id, r2),
    ensures
        r2 matches Err(e) && e is NotFound,
        rows2 == rows1,
{
    let i = idx_of(rows0, id);
    let u = r1->Ok_0;
    assert(rows1 == rows0.update(i, u));
    assert forall|p: int, q: int|
        #![trigger rows1[p].id, rows1[q].id]
        0 <= p < q < rows1.len() implies rows1[p].id < rows1[q].id by {
        assert(rows0[p].id < rows0[q].id);
    }
    assert(rows1[i].id == id);
    lemma_idx_of_at(rows1, i);
    assert(rows1[idx_of(rows1, id)].status is Confirmed);
}

/// Law: once a record is deleted, looking its id up fails with `NotFound`.
pub proof fn lemma_get_after_delete(
    rows0: Seq<Reservation>,
    rows1: Seq<Reservation>,
    id: i64,
    r1: Result<Reservation, ReservationError>,
    r2: Result<Reservation, ReservationError>,
)
    requires
        sorted_ids(rows0),
        delete_post(rows0, rows1, id, r1),
        r1 is Ok,
        get_post(rows1, id, r2),
    ensures
        r2 matches Err(e) && e is NotFound,
{
    let i = idx_of(rows0, id);
    assert(rows1 == rows0.remove(i));
    assert forall|k: int| 0 <= k < rows1.len() implies #[trigger] rows1[k].id != id by {
        let k0: int = if k < i { k } else { k + 1 };
        assert(rows1[k] == rows0[k0]);
        if k0 < i {
            assert(rows0[k0].id < rows0[i].id);
        } else {
            assert(rows0[i].id < rows0[k0].id);
        }
    }
}

/// Law: when no stored reservation satisfies the query predicate, the query
/// yields nothing.
pub proof fn lemma_query_no_match_empty(rows: Seq<Reservation>, q: ReservationQuery)
    requires
        forall|i: int| 0 <= i < rows.len() ==> !spec_matches_query(q, #[trigger] rows[i]),
    ensures
        ordered_query_matches(rows, q).len() == 0,
    decreases rows.len(),
{
    if rows.len() > 0 {
        lemma_query_no_match_empty(rows.drop_last(), q);
    }
}

/// Law: a query whose window is disjoint from every stored window yields
/// nothing.
pub proof fn lemma_query_disjoint_window_empty(
    rows: Seq<Reservation>,
    q: ReservationQuery,
    w: TimeWindow,
)
    requires
        q.window == Some(w),
        forall|i: int| 0 <= i < rows.len() ==> !spec_overlaps(w, #[trigger] rows[i].window),
    ensures
        ordered_query_matches(rows, q).len() == 0,
{
    lemma_query_no_match_empty(rows, q);
}

/// Law: a query for a status carried by no stored reservation yields
/// nothing.
pub proof fn lemma_query_status_empty(rows: Seq<Reservation>, q: ReservationQuery, s: RsvpStatus)
    requires
        q.status == StatusFilter::Exact(s),
        forall|i: int| 0 <= i < rows.len() ==> #[trigger] rows[i].status != s,
    ensures
        ordered_query_matches(rows, q).len() == 0,
{
    lemma_query_no_match_empty(rows, q);
}

/// Law: when exactly one stored reservation satisfies the query predicate —
/// as after a status transition that a repeated query now matches — the
/// query yields exactly that record.
pub proof fn lemma_query_single_match(rows: Seq<Reservation>, q: ReservationQuery, i: int)
    requires
        0 <= i < rows.len(),
        spec_matches_query(q, rows[i]),
        forall|j: int| 0 <= j < rows.len() && j != i ==> !spec_matches_query(q, #[trigger] rows[j]),
    ensures
        ordered_query_matches(rows, q) =~= seq![rows[i]],
    decreases rows.len(),
{
    if i == rows.len() - 1 {
        lemma_query_no_match_empty_prefix(rows.drop_last(), q);
        assert(query_matches(rows, q) =~= seq![rows[i]]);
    } else {
        lemma_query_single_match(rows.drop_last(), q, i);
        assert(rows.drop_last()[i] == rows[i]);
        assert(query_matches(rows, q) =~= seq![rows[i]]);
    }
    assert(seq![rows[i]].reverse() =~= seq![rows[i]]);
}

/// The unordered form of [`lemma_query_no_match_empty`], used inductively.
proof fn lemma_query_no_match_empty_prefix(rows: Seq<Reservation>, q: ReservationQuery)
    requires
        forall|i: int| 0 <= i < rows.len() ==> !spec_matches_query(q, #[trigger] rows[i]),
    ensures
        query_matches(rows, q).len() == 0,
    decreases rows.len(),
{
    if rows.len() > 0 {
        lemma_query_no_match_empty_prefix(rows.drop_last(), q);
    }
}

} // verus!
