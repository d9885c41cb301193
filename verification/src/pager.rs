//! The pagination engine: one bounded page of the filtered, id-ordered
//! reservation set, with cursors describing the neighbouring pages.

use vstd::prelude::*;
use crate::query::spec_opt_str_matches;
use crate::query::spec_opt_window_matches;
use crate::query::opt_str_matches;
use crate::query::opt_window_matches;
use crate::query::status_matches;
use crate::query::reversed;
use crate::types::spec_status_matches;
use crate::types::FilterPager;
use crate::types::Reservation;
use crate::types::ReservationFilter;
use crate::types::DEFAULT_PAGE_SIZE;

verus! {

/// The filter predicate: the same condition shape as the streaming query.
pub open spec fn spec_matches_filter(f: ReservationFilter, r: Reservation) -> bool {
    &&& spec_opt_str_matches(f.user_id, r.user_id)
    &&& spec_opt_str_matches(f.resource_id, r.resource_id)
    &&& spec_status_matches(f.status, r.status)
    &&& spec_opt_window_matches(f.window, r.window)
}

/// True when the id lies strictly past the cursor in traversal direction;
/// an absent cursor excludes nothing.
pub open spec fn spec_past_cursor(f: ReservationFilter, id: i64) -> bool {
    match f.cursor {
        Option::None => true,
        Option::Some(c) => if f.desc { id < c } else { id > c },
    }
}

/// True when the id lies on the looked-back side of the cursor, where the
/// pages before the current one live; nothing lies there without a cursor.
pub open spec fn spec_in_lookback(f: ReservationFilter, id: i64) -> bool {
    match f.cursor {
        Option::None => false,
        Option::Some(c) => if f.desc { id >= c } else { id <= c },
    }
}

/// A row the current and following pages are drawn from: it matches the
/// filter and lies past the cursor.
pub open spec fn spec_eligible(f: ReservationFilter, r: Reservation) -> bool {
    spec_matches_filter(f, r) && spec_past_cursor(f, r.id)
}

/// The subsequence of `rows` that is eligible, in stored order.
pub open spec fn eligible_rows(rows: Seq<Reservation>, f: ReservationFilter) -> Seq<Reservation>
    decreases rows.len(),
{
    if rows.len() == 0 {
        Seq::empty()
    } else if spec_eligible(f, rows.last()) {
        eligible_rows(rows.drop_last(), f).push(rows.last())
    } else {
        eligible_rows(rows.drop_last(), f)
    }
}

/// The eligible rows in traversal order: stored order, or its reverse when
/// the filter asks for descending ids.
pub open spec fn ordered_eligible(rows: Seq<Reservation>, f: ReservationFilter) -> Seq<Reservation> {
    if f.desc {
        eligible_rows(rows, f).reverse()
    } else {
        eligible_rows(rows, f)
    }
}

/// Some matching row lies on the looked-back side of the cursor, so a page
/// precedes the current one.
pub open spec fn has_lookback(rows: Seq<Reservation>, f: ReservationFilter) -> bool {
    exists|i: int|
        0 <= i < rows.len() && spec_matches_filter(f, #[trigger] rows[i])
            && spec_in_lookback(f, rows[i].id)
}

/// The effective page size: the stated one, or the default when absent.
pub open spec fn spec_page_size(ps: Option<i64>) -> int {
    match ps {
        Option::None => DEFAULT_PAGE_SIZE as int,
        Option::Some(n) => n as int,
    }
}

/// What one page computation returns, given the effective page size `ps`:
/// the page is the first `ps` rows of the eligible set in traversal order;
/// `next` is the last returned id exactly when more eligible rows follow;
/// `prev` is the first returned id exactly when a cursor was supplied, the
/// page is not empty, and a matching row lies behind the cursor; `total` is
/// never computed.
pub open spec fn page_post(
    rows: Seq<Reservation>,
    f: ReservationFilter,
    ps: int,
    pager: FilterPager,
    page: Seq<Reservation>,
) -> bool {
    let m = ordered_eligible(rows, f);
    let n = if ps <= m.len() { ps } else { m.len() as int };
    &&& page == m.take(n)
    &&& pager.total is None
    &&& pager.next == (if m.len() > ps {
        Some(m[ps - 1].id)
    } else {
        None::<i64>
    })
    &&& pager.prev == (if f.cursor is Some && n > 0 && has_lookback(rows, f) {
        Some(m[0].id)
    } else {
        None::<i64>
    })
}

/// Exec mirror of [`spec_matches_filter`].
pub fn matches_filter(f: &ReservationFilter, r: &Reservation) -> (b: bool)
    ensures
        b == spec_matches_filter(*f, *r),
{
    opt_str_matches(&f.user_id, &r.user_id)
        && opt_str_matches(&f.resource_id, &r.resource_id)
        && status_matches(f.status, r.status)
        && opt_window_matches(&f.window, &r.window)
}

/// Exec mirror of [`spec_past_cursor`].
fn past_cursor(f: &ReservationFilter, id: i64) -> (b: bool)
    ensures
        b == spec_past_cursor(*f, id),
{
    match f.cursor {
        Option::None => true,
        Option::Some(c) => if f.desc { id < c } else { id > c },
    }
}

/// Exec mirror of [`spec_in_lookback`].
fn in_lookback(f: &ReservationFilter, id: i64) -> (b: bool)
    ensures
        b == spec_in_lookback(*f, id),
{
    match f.cursor {
        Option::None => false,
        Option::Some(c) => if f.desc { id >= c } else { id <= c },
    }
}

/// Collects the eligible rows in stored order.
fn collect_eligible(rows: &Vec<Reservation>, f: &ReservationFilter) -> (out: Vec<Reservation>)
    ensures
        out@ == eligible_rows(rows@, *f),
{
    let mut m: Vec<Reservation> = Vec::new();
    let mut i: usize = 0;
    while i < rows.len()
        invariant
            i <= rows@.len(),
            m@ == eligible_rows(rows@.take(i as int), *f),
        decreases rows@.len() - i,
    {
        proof {
            assert(rows@.take(i + 1 as int).drop_last() =~= rows@.take(i as int));
            assert(rows@.take(i + 1 as int).last() == rows@[i as int]);
        }
        if matches_filter(f, &rows[i]) && past_cursor(f, rows[i].id) {
            m.push(rows[i].duplicate());
        }
        i += 1;
    }
    proof {
        assert(rows@.take(rows@.len() as int) =~= rows@);
    }
    m
}

/// Decides [`has_lookback`] by scanning the stored rows.
fn lookback_exists(rows: &Vec<Reservation>, f: &ReservationFilter) -> (b: bool)
    ensures
        b == has_lookback(rows@, *f),
{
    let mut i: usize = 0;
    while i < rows.len()
        invariant
            i <= rows@.len(),
            forall|k: int|
                0 <= k < i ==> !(spec_matches_filter(*f, #[trigger] rows@[k])
                    && spec_in_lookback(*f, rows@[k].id)),
        decreases rows@.len() - i,
    {
        if matches_filter(f, &rows[i]) && in_lookback(f, rows[i].id) {
            return true;
        }
        i += 1;
    }
    false
}

/// Computes one page and its pager over `rows` for the filter `f` with the
/// effective page size `ps` (callers resolve the default and reject
/// non-positive sizes first).
pub fn run_filter(rows: &Vec<Reservation>, f: &ReservationFilter, ps: i64) -> (r: (FilterPager, Vec<Reservation>))
    requires
        ps >= 1,
    ensures
        page_post(rows@, *f, ps as int, r.0, r.1@),
{
    let eligible = collect_eligible(rows, f);
    let mut m = if f.desc { reversed(eligible) } else { eligible };
    let ghost m0 = m@;
    let has_more = (m.len() as u64) > (ps as u64);
    let next = if has_more {
        Some(m[(ps as usize) - 1].id)
    } else {
        None
    };
    if has_more {
        m.truncate(ps as usize);
    }
    let prev = if f.cursor.is_some() && m.len() > 0 && lookback_exists(rows, f) {
        Some(m[0].id)
    } else {
        None
    };
    proof {
        let n = if ps as int <= m0.len() { ps as int } else { m0.len() as int };
        assert(m@ =~= m0.take(n));
    }
    (FilterPager { prev, next, total: None }, m)
}

} // verus!
