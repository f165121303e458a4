use contact_sensor::dataver::Dataver;

#[test]
fn new_tracker_has_initial_version_and_no_pending_change() {
    let mut dv = Dataver::new(7);
    assert_eq!(dv.get(), 7);
    assert_eq!(dv.consume_change(()), None);
}

#[test]
fn changed_bumps_version_and_marks_pending() {
    let mut dv = Dataver::new(7);
    assert_eq!(dv.changed(), 8);
    assert_eq!(dv.get(), 8);
    assert_eq!(dv.consume_change(()), Some(()));
    assert_eq!(dv.consume_change(()), None);
    assert_eq!(dv.get(), 8);
}

#[test]
fn changed_wraps_at_the_top_of_the_range() {
    let mut dv = Dataver::new(u32::MAX);
    assert_eq!(dv.changed(), 0);
    assert_eq!(dv.get(), 0);
}

#[test]
fn several_changes_coalesce_into_one_token() {
    let mut dv = Dataver::new(0);
    dv.changed();
    dv.changed();
    dv.changed();
    assert_eq!(dv.get(), 3);
    assert_eq!(dv.consume_change(()), Some(()));
    assert_eq!(dv.consume_change(()), None);
}

#[test]
fn consume_carries_the_caller_value() {
    let mut dv = Dataver::new(0);
    dv.changed();
    assert_eq!(dv.consume_change(42u8), Some(42u8));
    assert_eq!(dv.consume_change(42u8), None);
}
