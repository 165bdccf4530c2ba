use mvg_fahrinfo::eta::{get_minutes, ETA};

#[test]
fn two_minutes_ahead() {
    assert_eq!(get_minutes(120_000, 0), ETA::Minutes(2));
}

#[test]
fn exactly_one_minute_ahead() {
    assert_eq!(get_minutes(60_000, 0), ETA::Minutes(1));
}

#[test]
fn under_a_minute_is_now() {
    assert_eq!(get_minutes(59_999, 0), ETA::Now);
    assert_eq!(get_minutes(0, 0), ETA::Now);
}

#[test]
fn past_departure_is_now() {
    assert_eq!(get_minutes(10_000, 500_000), ETA::Now);
}

#[test]
fn negative_timestamp_is_now() {
    assert_eq!(get_minutes(-5_000, 0), ETA::Now);
}

#[test]
fn realistic_epoch_difference() {
    assert_eq!(
        get_minutes(1_700_000_120_000, 1_700_000_000_000),
        ETA::Minutes(2)
    );
}

#[test]
fn sub_second_of_the_stamp_is_dropped() {
    // 90.9 seconds ahead: the stamp truncates to 90 whole seconds,
    // giving one whole minute.
    assert_eq!(get_minutes(90_900, 0), ETA::Minutes(1));
}
