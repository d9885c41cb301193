use reservation::Reservation;
use reservation::ReservationManager;
use reservation::ReservationQuery;
use reservation::Rsvp;
use reservation::RsvpStatus;
use reservation::StatusFilter;
use reservation::TimeWindow;

fn pending(uid: &str, rid: &str, start: i64, end: i64) -> Reservation {
    Reservation::new_pending(uid, rid, TimeWindow::new(start, end), "")
}

fn query_any() -> ReservationQuery {
    ReservationQuery {
        user_id: None,
        resource_id: None,
        status: StatusFilter::AnyStatus,
        window: None,
        desc: false,
    }
}

#[test]
fn query_disjoint_window_yields_empty() {
    let mut manager = ReservationManager::new();
    manager.reserve(pending("alice", "room-a", 1000, 2000)).unwrap();
    manager.reserve(pending("bob", "room-b", 3000, 4000)).unwrap();

    let mut q = query_any();
    q.window = Some(TimeWindow::new(4000, 5000));
    assert_eq!(manager.query(&q), Vec::<Reservation>::new());
}

#[test]
fn query_status_without_records_yields_empty_until_transition() {
    let mut manager = ReservationManager::new();
    let stored = manager.reserve(pending("alice", "room-a", 1000, 2000)).unwrap();

    let mut q = query_any();
    q.status = StatusFilter::Exact(RsvpStatus::Confirmed);
    assert_eq!(manager.query(&q), Vec::<Reservation>::new());

    let confirmed = manager.change_status(stored.id).unwrap();
    assert_eq!(manager.query(&q), vec![confirmed]);
}

#[test]
fn query_filters_by_user_and_resource() {
    let mut manager = ReservationManager::new();
    let a = manager.reserve(pending("alice", "room-a", 1000, 2000)).unwrap();
    let b = manager.reserve(pending("bob", "room-b", 1000, 2000)).unwrap();
    let c = manager.reserve(pending("alice", "room-b", 3000, 4000)).unwrap();

    let mut q = query_any();
    q.user_id = Some("alice".to_string());
    assert_eq!(manager.query(&q), vec![a.clone(), c.clone()]);

    let mut q = query_any();
    q.resource_id = Some("room-b".to_string());
    assert_eq!(manager.query(&q), vec![b, c.clone()]);

    let mut q = query_any();
    q.user_id = Some("alice".to_string());
    q.resource_id = Some("room-b".to_string());
    assert_eq!(manager.query(&q), vec![c]);
    drop(a);
}

#[test]
fn query_descending_reverses_id_order() {
    let mut manager = ReservationManager::new();
    let a = manager.reserve(pending("alice", "room-a", 1000, 2000)).unwrap();
    let b = manager.reserve(pending("alice", "room-b", 1000, 2000)).unwrap();
    let c = manager.reserve(pending("alice", "room-c", 1000, 2000)).unwrap();

    let mut q = query_any();
    q.desc = true;
    assert_eq!(manager.query(&q), vec![c, b, a]);
}

#[test]
fn query_window_uses_overlap_not_containment() {
    let mut manager = ReservationManager::new();
    let stored = manager.reserve(pending("alice", "room-a", 1000, 2000)).unwrap();

    // the query window covers only part of the stored one
    let mut q = query_any();
    q.window = Some(TimeWindow::new(1500, 1600));
    assert_eq!(manager.query(&q), vec![stored.clone()]);

    // touching endpoints do not overlap
    let mut q = query_any();
    q.window = Some(TimeWindow::new(2000, 3000));
    assert_eq!(manager.query(&q), Vec::<Reservation>::new());
    drop(stored);
}

#[test]
fn query_any_status_sees_all_records() {
    let mut manager = ReservationManager::new();
    let a = manager.reserve(pending("alice", "room-a", 1000, 2000)).unwrap();
    let b = manager.reserve(pending("alice", "room-b", 1000, 2000)).unwrap();
    let b = manager.change_status(b.id).unwrap();

    let q = query_any();
    assert_eq!(manager.query(&q), vec![a, b]);
}
