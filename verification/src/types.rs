//! Reservation records, status lifecycle values, and the query, filter and
//! pager shapes used by the listing operations.

use vstd::prelude::*;
use crate::window::TimeWindow;

verus! {

/// Lifecycle status of a reservation. `Unknown` is a sentinel for an absent
/// or unparseable status and is never stored; records enter the store as
/// `Pending`, may move to `Confirmed`, and `Blocked` is reserved for
/// administrative use outside this crate's operations.
#[derive(Clone, Copy, Debug, PartialEq, Eq, Structural)]
pub enum RsvpStatus {
    Unknown,
    Pending,
    Confirmed,
    Blocked,
}

/// A status is active when it takes part in overlap checking.
pub open spec fn spec_active(s: RsvpStatus) -> bool {
    s is Pending || s is Confirmed
}

impl RsvpStatus {
    /// True for the statuses that take part in overlap checking.
    pub fn is_active(&self) -> (r: bool)
        ensures
            r == spec_active(*self),
    {
        match self {
            RsvpStatus::Pending => true,
            RsvpStatus::Confirmed => true,
            _ => false,
        }
    }
}

/// One reservation: a user's claim on one resource over one time window.
/// `id` is server-assigned (positive, never reused); the `id` of a request
/// handed to `reserve` is ignored.
#[derive(Clone, Debug, PartialEq, Eq)]
pub struct Reservation {
    pub id: i64,
    pub user_id: String,
    pub resource_id: String,
    pub window: TimeWindow,
    pub note: String,
    pub status: RsvpStatus,
}

impl Reservation {
    /// Builds a reservation request in `Pending` status with no id yet.
    pub fn new_pending(
        user_id: &str,
        resource_id: &str,
        window: TimeWindow,
        note: &str,
    ) -> (r: Reservation)
        ensures
            r.id == 0,
            r.user_id@ == user_id@,
            r.resource_id@ == resource_id@,
            r.window == window,
            r.note@ == note@,
            r.status is Pending,
    {
        Reservation {
            id: 0,
            user_id: user_id.to_owned(),
            resource_id: resource_id.to_owned(),
            window,
            note: note.to_owned(),
            status: RsvpStatus::Pending,
        }
    }

    /// An equal copy of the record, usable in verified code (the derived
    /// `Clone` carries no contract).
    pub fn duplicate(&self) -> (r: Reservation)
        ensures
            r == *self,
    {
        Reservation {
            id: self.id,
            user_id: self.user_id.clone(),
            resource_id: self.resource_id.clone(),
            window: self.window,
            note: self.note.clone(),
            status: self.status,
        }
    }
}

/// A status condition for the listing operations: either one exact status or
/// the explicit all-statuses sentinel. There is no implicit default.
#[derive(Clone, Copy, Debug, PartialEq, Eq, Structural)]
pub enum StatusFilter {
    AnyStatus,
    Exact(RsvpStatus),
}

/// True when a stored status satisfies the condition.
pub open spec fn spec_status_matches(f: StatusFilter, s: RsvpStatus) -> bool {
    match f {
        StatusFilter::AnyStatus => true,
        StatusFilter::Exact(x) => x == s,
    }
}

/// The condition of the streaming query: every field but `desc` narrows the
/// result set, an absent field means "any". `desc` flips the id order of the
/// results.
#[derive(Clone, Debug, PartialEq, Eq)]
pub struct ReservationQuery {
    pub user_id: Option<String>,
    pub resource_id: Option<String>,
    pub status: StatusFilter,
    pub window: Option<TimeWindow>,
    pub desc: bool,
}

/// The condition of the paginated listing: the same predicate fields as
/// [`ReservationQuery`] plus the page bounds. `cursor` is an exclusive id
/// bound (absent on the first page); `page_size` defaults to
/// [`DEFAULT_PAGE_SIZE`] when absent and is rejected when not positive.
#[derive(Clone, Debug, PartialEq, Eq)]
pub struct ReservationFilter {
    pub user_id: Option<String>,
    pub resource_id: Option<String>,
    pub status: StatusFilter,
    pub window: Option<TimeWindow>,
    pub cursor: Option<i64>,
    pub page_size: Option<i64>,
    pub desc: bool,
}

/// Page size used when a filter does not name one.
pub const DEFAULT_PAGE_SIZE: i64 = 10;

/// Adjacency of one returned page. `prev` and `next` are cursors (exclusive
/// id bounds) for the neighbouring pages, absent when there is no such page.
/// `total` is never computed and always absent.
#[derive(Clone, Copy, Debug, PartialEq, Eq)]
pub struct FilterPager {
    pub prev: Option<i64>,
    pub next: Option<i64>,
    pub total: Option<u64>,
}

/// Maps the wire convention "empty string means absent" onto `Option`.
pub fn string_to_option(s: &str) -> (r: Option<String>)
    ensures
        match r {
            Option::None => s@.len() == 0,
            Option::Some(t) => s@.len() > 0 && t@ == s@,
        },
{
    if s.is_empty() {
        None
    } else {
        Some(s.to_owned())
    }
}

} // verus!
