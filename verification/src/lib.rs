//! Reservation manager: exclusive time-bounded claims on shared resources.
//!
//! The library keeps, for every resource, a set of reservations whose active
//! members (pending or confirmed) never overlap in time. It offers the full
//! operation set of a reservation service: reserve with atomic conflict
//! detection, a pending-to-confirmed status transition, note updates, point
//! lookup, deletion, a streaming-style query scan, and cursor-based
//! pagination.

pub mod error;
pub mod laws;
pub mod manager;
pub mod pager;
pub mod query;
pub mod store;
pub mod timeparse;
pub mod types;
pub mod window;

pub use error::ReservationConflict;
pub use error::ReservationError;
pub use error::ReservationWindow;
pub use manager::ReservationManager;
pub use manager::Rsvp;
pub use store::ReservationStore;
pub use types::FilterPager;
pub use types::Reservation;
pub use types::ReservationFilter;
pub use types::ReservationQuery;
pub use types::RsvpStatus;
pub use types::StatusFilter;
pub use types::DEFAULT_PAGE_SIZE;
pub use types::string_to_option;
pub use window::TimeWindow;
