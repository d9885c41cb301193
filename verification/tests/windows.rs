use reservation::ReservationError;
use reservation::TimeWindow;

#[test]
fn overlap_is_symmetric_on_values() {
    let a = TimeWindow::new(10, 20);
    let b = TimeWindow::new(15, 30);
    let c = TimeWindow::new(25, 40);
    assert!(a.overlaps(&b));
    assert!(b.overlaps(&a));
    assert!(!a.overlaps(&c));
    assert!(!c.overlaps(&a));
}

#[test]
fn window_overlaps_itself() {
    let a = TimeWindow::new(10, 20);
    assert!(a.overlaps(&a));
}

#[test]
fn touching_windows_do_not_overlap() {
    let a = TimeWindow::new(10, 20);
    let b = TimeWindow::new(20, 30);
    assert!(!a.overlaps(&b));
    assert!(!b.overlaps(&a));
}

#[test]
fn window_contains_instants_half_open() {
    let a = TimeWindow::new(10, 20);
    assert!(a.contains(10));
    assert!(a.contains(19));
    assert!(!a.contains(20));
    assert!(!a.contains(9));
    assert_eq!(a.to_range(), (10, 20));
}

#[test]
fn window_validity() {
    assert!(TimeWindow::new(10, 20).is_valid());
    assert!(!TimeWindow::new(20, 10).is_valid());
    assert!(!TimeWindow::new(10, 10).is_valid());
}

#[test]
fn parse_window_exact_epoch_values() {
    let w = TimeWindow::parse("2022-12-25T15:00:00-0700", "2022-12-28T12:00:00-0700").unwrap();
    assert_eq!(w.start, 1672005600);
    assert_eq!(w.end, 1672254000);
}

#[test]
fn parse_window_accepts_colon_offset() {
    let w1 = TimeWindow::parse("2022-12-25T15:00:00-0700", "2022-12-28T12:00:00-0700").unwrap();
    let w2 = TimeWindow::parse("2022-12-25T15:00:00-07:00", "2022-12-28T12:00:00-07:00").unwrap();
    assert_eq!(w1, w2);
}

#[test]
fn parse_window_rejects_garbage() {
    let r = TimeWindow::parse("not a date", "2022-12-28T12:00:00-0700");
    assert_eq!(r, Err(ReservationError::InvalidTime));
    let r = TimeWindow::parse("2022-12-28T12:00:00-0700", "also not a date");
    assert_eq!(r, Err(ReservationError::InvalidTime));
}

#[test]
fn parse_window_rejects_reversed_order() {
    let r = TimeWindow::parse("2022-12-28T12:00:00-0700", "2022-12-25T15:00:00-0700");
    assert_eq!(r, Err(ReservationError::InvalidTime));
    let r = TimeWindow::parse("2022-12-25T15:00:00-0700", "2022-12-25T15:00:00-0700");
    assert_eq!(r, Err(ReservationError::InvalidTime));
}
