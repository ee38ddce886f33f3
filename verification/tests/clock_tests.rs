use chat_backend::clock::seconds_since_epoch;
use chat_backend::clock::timestamp_millis;
use chat_backend::clock::unix_time;

#[test]
fn clock_reads_the_present() {
    let seconds = unix_time().unwrap();
    assert!(seconds > 1_600_000_000);
    let millis = timestamp_millis();
    assert!(millis > 1_600_000_000_000);
    let again = unix_time().unwrap();
    assert!(again >= seconds);
    assert!((millis / 1000) as u64 >= seconds - 1);
    assert!((millis / 1000) as u64 <= again + 1);
}

#[test]
fn readings_before_the_epoch_are_no_time() {
    assert_eq!(seconds_since_epoch(-1), None);
    assert_eq!(seconds_since_epoch(i64::MIN), None);
    assert_eq!(seconds_since_epoch(0), Some(0));
    assert_eq!(seconds_since_epoch(1_700_000_000), Some(1_700_000_000));
    assert_eq!(seconds_since_epoch(i64::MAX), Some(9_223_372_036_854_775_807));
}

#[test]
fn clock_gives_a_time_that_a_reading_comes_to() {
    let seconds = unix_time().unwrap();
    assert!(seconds <= i64::MAX as u64);
    assert_eq!(seconds_since_epoch(seconds as i64), Some(seconds));
}
