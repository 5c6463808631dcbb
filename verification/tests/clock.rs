use auth_lib::clock::{clamp_reading, now, ACCESS_LIFETIME, REFRESH_LIFETIME};

#[test]
fn lifetimes_are_five_minutes_and_seven_days() {
    assert_eq!(ACCESS_LIFETIME, 5 * 60);
    assert_eq!(REFRESH_LIFETIME, 7 * 24 * 60 * 60);
}

#[test]
fn readings_are_brought_into_range() {
    assert_eq!(clamp_reading(0), 0);
    assert_eq!(clamp_reading(1_700_000_000), 1_700_000_000);
    assert_eq!(clamp_reading(-1), 0);
    assert_eq!(clamp_reading(i64::MIN), 0);
    assert_eq!(clamp_reading(i64::MAX) as u128, (i64::MAX as u128).min(usize::MAX as u128));
}

#[test]
fn clock_is_past_the_year_2020() {
    assert!(now() > 1_577_836_800);
}
