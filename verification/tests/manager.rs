use reservation::FilterPager;
use reservation::Reservation;
use reservation::ReservationConflict;
use reservation::ReservationError;
use reservation::ReservationFilter;
use reservation::ReservationManager;
use reservation::ReservationQuery;
use reservation::ReservationWindow;
use reservation::Rsvp;
use reservation::RsvpStatus;
use reservation::StatusFilter;
use reservation::TimeWindow;

fn make_reservation(
    uid: &str,
    rid: &str,
    start: &str,
    end: &str,
    note: &str,
) -> (Reservation, ReservationManager) {
    let mut manager = ReservationManager::new();
    let window = TimeWindow::parse(start, end).unwrap();
    let rsvp = Reservation::new_pending(uid, rid, window, note);
    let stored = manager.reserve(rsvp).unwrap();
    (stored, manager)
}

fn make_tyr_reservation() -> (Reservation, ReservationManager) {
    make_reservation(
        "tyrid",
        "ocean-view-room-713",
        "2022-12-25T15:00:00-0700",
        "2022-12-28T12:00:00-0700",
        "I need to book this for xyz project fro a month.",
    )
}

fn make_alice_reservation() -> (Reservation, ReservationManager) {
    make_reservation(
        "aliceid",
        "ixia-test-1",
        "2023-01-25T15:00:00-0700",
        "2023-02-25T12:00:00-0700",
        "I need to book this for xyz project fro a month.",
    )
}

#[test]
fn reserve_should_work_for_valid_window() {
    let (rsvp, _manager) = make_tyr_reservation();

    assert!(rsvp.id != 0);
}

#[test]
fn reserve_conflict_reservation_should_reject() {
    let (_rsvp1, mut manager) = make_tyr_reservation();
    let rsvp2 = Reservation::new_pending(
        "aliceid",
        "ocean-view-room-713",
        TimeWindow::parse("2022-12-26T15:00:00-0700", "2022-12-30T12:00:00-0700").unwrap(),
        "hello",
    );
    let err = manager.reserve(rsvp2).unwrap_err();

    let info = ReservationConflict {
        new: ReservationWindow {
            rid: "ocean-view-room-713".to_string(),
            start: TimeWindow::parse("2022-12-26T15:00:00-0700", "2022-12-30T12:00:00-0700")
                .unwrap()
                .start,
            end: TimeWindow::parse("2022-12-26T15:00:00-0700", "2022-12-30T12:00:00-0700")
                .unwrap()
                .end,
        },
        old: ReservationWindow {
            rid: "ocean-view-room-713".to_string(),
            start: TimeWindow::parse("2022-12-25T15:00:00-0700", "2022-12-28T12:00:00-0700")
                .unwrap()
                .start,
            end: TimeWindow::parse("2022-12-25T15:00:00-0700", "2022-12-28T12:00:00-0700")
                .unwrap()
                .end,
        },
    };

    assert_eq!(err, ReservationError::Conflict(info));
}

#[test]
fn reserve_change_status_should_work() {
    let (rsvp, mut manager) = make_alice_reservation();
    let rsvp = manager.change_status(rsvp.id).unwrap();
    assert_eq!(rsvp.status, RsvpStatus::Confirmed);
}

#[test]
fn reserve_change_status_not_pending_should_do_nothing() {
    let (rsvp, mut manager) = make_alice_reservation();

    let rsvp = manager.change_status(rsvp.id).unwrap();
    // changing the status again should do nothing
    let ret = manager.change_status(rsvp.id).unwrap_err();
    assert_eq!(ret, ReservationError::NotFound);
    assert_eq!(rsvp.status, RsvpStatus::Confirmed);
}

#[test]
fn update_note_should_work() {
    let (rsvp, mut manager) = make_alice_reservation();
    let rsvp = manager
        .update_note(rsvp.id, "hello world".to_string())
        .unwrap();
    assert_eq!(rsvp.note, "hello world");
}

#[test]
fn get_reservation_should_work() {
    let (rsvp, manager) = make_alice_reservation();
    let rsvp1 = manager.get(rsvp.id).unwrap();
    assert_eq!(rsvp, rsvp1);
}

#[test]
fn delete_reservation_should_work() {
    let (rsvp, mut manager) = make_alice_reservation();
    manager.delete(rsvp.id).unwrap();
    let rsvp1 = manager.get(rsvp.id).unwrap_err();
    assert_eq!(rsvp1, ReservationError::NotFound);
}

#[test]
fn query_reservations_should_work() {
    let (rsvp, mut manager) = make_alice_reservation();
    let query = ReservationQuery {
        user_id: Some("aliceid".to_string()),
        resource_id: None,
        status: StatusFilter::Exact(RsvpStatus::Pending),
        window: Some(
            TimeWindow::parse("2023-01-01T15:00:00-0700", "2023-02-28T12:00:00-0700").unwrap(),
        ),
        desc: false,
    };
    let rsvps = manager.query(&query);
    assert_eq!(rsvps, vec![rsvp.clone()]);

    // a window overlapping the stored one still matches, even where the
    // stored window is not contained in it
    let query = ReservationQuery {
        user_id: Some("aliceid".to_string()),
        resource_id: None,
        status: StatusFilter::Exact(RsvpStatus::Pending),
        window: Some(
            TimeWindow::parse("2023-01-01T15:00:00-0700", "2023-02-01T12:00:00-0700").unwrap(),
        ),
        desc: false,
    };
    let rsvps = manager.query(&query);
    assert_eq!(rsvps, vec![rsvp.clone()]);

    // with the wrong status, the query should return nothing
    let query = ReservationQuery {
        user_id: Some("aliceid".to_string()),
        resource_id: None,
        status: StatusFilter::Exact(RsvpStatus::Confirmed),
        window: Some(
            TimeWindow::parse("2021-11-01T15:00:00-0700", "2023-12-31T12:00:00-0700").unwrap(),
        ),
        desc: false,
    };
    let rsvps = manager.query(&query);
    assert_eq!(rsvps, Vec::<Reservation>::new());

    // after the status transition, the same query should find the record
    let rsvp = manager.change_status(rsvp.id).unwrap();
    let rsvps = manager.query(&query);
    assert_eq!(rsvps, vec![rsvp]);
}

#[test]
fn filter_reservations_should_work() {
    let (rsvp, manager) = make_alice_reservation();
    let filter = ReservationFilter {
        user_id: Some("aliceid".to_string()),
        resource_id: None,
        status: StatusFilter::Exact(RsvpStatus::Pending),
        window: None,
        cursor: None,
        page_size: None,
        desc: false,
    };
    let (pager, rsvps) = manager.filter(&filter).unwrap();
    assert_eq!(pager.prev, None);
    assert_eq!(pager.next, None);
    assert_eq!(rsvps.len(), 1);
    assert_eq!(rsvps[0], rsvp);
    assert_eq!(
        pager,
        FilterPager {
            prev: None,
            next: None,
            total: None
        }
    );
}
