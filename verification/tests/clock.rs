use goodwe_web::clock::{now_ms, timestamp};

#[test]
fn timestamps_keep_the_low_bits() {
    assert_eq!(timestamp(None), 0);
    assert_eq!(timestamp(Some(0)), 0);
    assert_eq!(timestamp(Some(1778955297376)), 1778955297376);
    assert_eq!(timestamp(Some(u64::MAX as u128)), u64::MAX);
    assert_eq!(timestamp(Some(u64::MAX as u128 + 1)), 0);
    assert_eq!(timestamp(Some(u64::MAX as u128 + 6)), 5);
}

#[test]
fn the_clock_is_past_two_thousand_and_twenty() {
    assert!(now_ms() > 1577836800000);
}

#[test]
fn the_clock_counts_milliseconds_from_the_epoch() {
    let millis = || {
        let elapsed = std::time::SystemTime::now().duration_since(std::time::UNIX_EPOCH);
        elapsed.unwrap().as_millis() as u64
    };
    let before = millis();
    let now = now_ms();
    let after = millis();
    assert!(before <= now && now <= after);
}

#[test]
fn timestamps_follow_the_clock() {
    assert!(timestamp(None) <= timestamp(Some(0)));
    assert!(timestamp(Some(1778955297376)) < timestamp(Some(1778955297377)));
}
