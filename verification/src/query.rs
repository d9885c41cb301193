//! The query engine: an unbounded, ordered scan of every reservation
//! matching a condition on user, resource, status and time window.
//!
//! The scan materializes its matches in id order (storage order, or its
//! reverse); delivering them incrementally to a consumer is the transport
//! layer's affair.

use vstd::prelude::*;
use crate::types::spec_status_matches;
use crate::types::Reservation;
use crate::types::ReservationQuery;
use crate::types::RsvpStatus;
use crate::types::StatusFilter;
use crate::window::spec_overlaps;
use crate::window::TimeWindow;

verus! {

/// An absent condition matches anything; a present one matches exactly.
pub open spec fn spec_opt_str_matches(cond: Option<String>, val: String) -> bool {
    cond matches Some(c) ==> val@ == c@
}

/// An absent window condition matches anything; a present one matches the
/// stored windows overlapping it.
pub open spec fn spec_opt_window_matches(cond: Option<TimeWindow>, w: TimeWindow) -> bool {
    cond matches Some(c) ==> spec_overlaps(c, w)
}

/// The query predicate: every present condition must hold of the record.
pub open spec fn spec_matches_query(q: ReservationQuery, r: Reservation) -> bool {
    &&& spec_opt_str_matches(q.user_id, r.user_id)
    &&& spec_opt_str_matches(q.resource_id, r.resource_id)
    &&& spec_status_matches(q.status, r.status)
    &&& spec_opt_window_matches(q.window, r.window)
}

/// The subsequence of `rows` whose members satisfy the query predicate, in
/// stored order.
pub open spec fn query_matches(rows: Seq<Reservation>, q: ReservationQuery) -> Seq<Reservation>
    decreases rows.len(),
{
    if rows.len() == 0 {
        Seq::empty()
    } else if spec_matches_query(q, rows.last()) {
        query_matches(rows.drop_last(), q).push(rows.last())
    } else {
        query_matches(rows.drop_last(), q)
    }
}

/// The query result: the matching subsequence, reversed when the query asks
/// for descending id order.
pub open spec fn ordered_query_matches(rows: Seq<Reservation>, q: ReservationQuery) -> Seq<Reservation> {
    if q.desc {
        query_matches(rows, q).reverse()
    } else {
        query_matches(rows, q)
    }
}

/// Exec mirror of [`spec_opt_str_matches`].
pub fn opt_str_matches(cond: &Option<String>, val: &String) -> (b: bool)
    ensures
        b == spec_opt_str_matches(*cond, *val),
{
    match cond {
        Option::Some(c) => *c == *val,
        Option::None => true,
    }
}

/// Exec mirror of [`spec_status_matches`].
pub fn status_matches(cond: StatusFilter, s: RsvpStatus) -> (b: bool)
    ensures
        b == spec_status_matches(cond, s),
{
    match cond {
        StatusFilter::AnyStatus => true,
        StatusFilter::Exact(x) => x == s,
    }
}

/// Exec mirror of [`spec_opt_window_matches`].
pub fn opt_window_matches(cond: &Option<TimeWindow>, w: &TimeWindow) -> (b: bool)
    ensures
        b == spec_opt_window_matches(*cond, *w),
{
    match cond {
        Option::Some(c) => c.overlaps(w),
        Option::None => true,
    }
}

/// Exec mirror of [`spec_matches_query`].
pub fn matches_query(q: &ReservationQuery, r: &Reservation) -> (b: bool)
    ensures
        b == spec_matches_query(*q, *r),
{
    opt_str_matches(&q.user_id, &r.user_id)
        && opt_str_matches(&q.resource_id, &r.resource_id)
        && status_matches(q.status, r.status)
        && opt_window_matches(&q.window, &r.window)
}

/// Copies a row vector in reverse order.
pub fn reversed(v: Vec<Reservation>) -> (out: Vec<Reservation>)
    ensures
        out@ == v@.reverse(),
{
    let mut out: Vec<Reservation> = Vec::new();
    let mut i: usize = 0;
    while i < v.len()
        invariant
            i <= v@.len(),
            out@.len() == i,
            forall|j: int| 0 <= j < i ==> out@[j] == v@[v@.len() - 1 - j],
        decreases v@.len() - i,
    {
        out.push(v[v.len() - 1 - i].duplicate());
        i += 1;
    }
    proof {
        assert(out@ =~= v@.reverse());
    }
    out
}

/// Runs the query scan over `rows`: every matching row, in stored order or
/// its reverse as the query directs.
pub fn run_query(rows: &Vec<Reservation>, q: &ReservationQuery) -> (out: Vec<Reservation>)
    ensures
        out@ == ordered_query_matches(rows@, *q),
{
    let mut m: Vec<Reservation> = Vec::new();
    let mut i: usize = 0;
    while i < rows.len()
        invariant
            i <= rows@.len(),
            m@ == query_matches(rows@.take(i as int), *q),
        decreases rows@.len() - i,
    {
        proof {
            assert(rows@.take(i + 1 as int).drop_last() =~= rows@.take(i as int));
            assert(rows@.take(i + 1 as int).last() == rows@[i as int]);
        }
        if matches_query(q, &rows[i]) {
            m.push(rows[i].duplicate());
        }
        i += 1;
    }
    proof {
        assert(rows@.take(rows@.len() as int) =~= rows@);
    }
    if q.desc {
        reversed(m)
    } else {
        m
    }
}

} // verus!
