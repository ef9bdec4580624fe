use chrono::Utc;

use zeitschaltuhr::clock::Clock;
use zeitschaltuhr::time::Instant;

#[test]
fn that_a_fixed_clock_stands_still() {
    let at = Instant::new(1_580_515_200, 42).unwrap();
    let clock = Clock::Fixed(at);

    assert_eq!(clock.now(), at);
    assert_eq!(clock.now(), at);
}

#[test]
fn that_the_system_clock_reads_the_time_of_day() {
    let before = Utc::now();

    let reading = Clock::System.now();

    let after = Utc::now();
    let earliest = Instant::new(before.timestamp(), before.timestamp_subsec_nanos()).unwrap();
    let latest = Instant::new(after.timestamp(), after.timestamp_subsec_nanos()).unwrap();
    assert!(earliest <= reading);
    assert!(reading <= latest);
}
