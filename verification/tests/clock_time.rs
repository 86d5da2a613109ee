use daily_shell::clock::{now_unix_millis, unix_millis};
use std::time::{Duration, SystemTime, UNIX_EPOCH};

#[test]
fn elapsed_time_is_counted_in_whole_milliseconds() {
    assert_eq!(unix_millis(Ok(Duration::from_millis(1500))), 1500);
    assert_eq!(unix_millis(Ok(Duration::from_micros(2999))), 2);
    assert_eq!(unix_millis(Ok(Duration::from_secs(1_700_000_000))), 1_700_000_000_000);
    assert_eq!(unix_millis(Ok(Duration::ZERO)), 0);
}

#[test]
fn large_durations_do_not_wrap() {
    assert_eq!(
        unix_millis(Ok(Duration::from_secs(u64::MAX))),
        u128::from(u64::MAX) * 1000
    );
}

#[test]
fn a_clock_before_the_epoch_reads_zero() {
    let before = UNIX_EPOCH - Duration::from_secs(60);
    let error = before.duration_since(UNIX_EPOCH);
    assert!(error.is_err());
    assert_eq!(unix_millis(error), 0);
}

#[test]
fn now_is_after_the_year_2020_and_does_not_run_backwards_by_much() {
    let first = now_unix_millis();
    let reference = SystemTime::now().duration_since(UNIX_EPOCH).unwrap().as_millis();
    let second = now_unix_millis();
    assert!(first > 1_577_836_800_000);
    assert!(first <= reference + 1000);
    assert!(second + 1000 >= reference);
}
