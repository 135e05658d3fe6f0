use std::time::{Duration, SystemTime};

use event_viewer::clock::{reading_since_epoch, ClockError};

#[test]
fn moment_before_the_epoch_gives_no_reading() {
    let earlier = SystemTime::UNIX_EPOCH - Duration::from_secs(1);
    let elapsed = earlier.duration_since(SystemTime::UNIX_EPOCH);
    assert!(elapsed.is_err());
    assert_eq!(reading_since_epoch(elapsed), Err(ClockError::BeforeEpoch));
}

#[test]
fn moment_after_the_epoch_reads_as_its_nanoseconds() {
    let later = SystemTime::UNIX_EPOCH + Duration::new(3, 7);
    let elapsed = later.duration_since(SystemTime::UNIX_EPOCH);
    assert_eq!(reading_since_epoch(elapsed), Ok(3_000_000_007));
}

#[test]
fn the_epoch_itself_reads_as_zero() {
    let elapsed = SystemTime::UNIX_EPOCH.duration_since(SystemTime::UNIX_EPOCH);
    assert_eq!(reading_since_epoch(elapsed), Ok(0));
}
