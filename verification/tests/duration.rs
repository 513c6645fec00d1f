use random_field::format_duration;

#[test]
fn zero_is_no_time() {
    assert_eq!(format_duration(0), "no time (0)");
}

#[test]
fn below_a_microsecond_in_nanoseconds() {
    assert_eq!(format_duration(1), "1 nanosecond");
    assert_eq!(format_duration(2), "2 nanoseconds");
    assert_eq!(format_duration(999), "999 nanoseconds");
}

#[test]
fn below_five_milliseconds_in_microseconds() {
    assert_eq!(format_duration(1_000), "1 microsecond");
    assert_eq!(format_duration(1_999), "1 microsecond");
    assert_eq!(format_duration(2_000), "2 microseconds");
    assert_eq!(format_duration(4_999_999), "4999 microseconds");
}

#[test]
fn below_a_second_in_milliseconds() {
    assert_eq!(format_duration(5_000_000), "5 milliseconds");
    assert_eq!(format_duration(999_999_999), "999 milliseconds");
}

#[test]
fn whole_seconds() {
    assert_eq!(format_duration(1_000_000_000), "1 second");
    assert_eq!(format_duration(2_000_000_000), "2 seconds");
    assert_eq!(format_duration(60_000_000_000), "60 seconds");
}

#[test]
fn seconds_with_a_rest() {
    assert_eq!(format_duration(1_000_000_001), "1 second 1 nanosecond");
    assert_eq!(format_duration(1_000_001_000), "1 second 1 microsecond");
    assert_eq!(format_duration(1_005_000_000), "1 second 5 milliseconds");
    assert_eq!(format_duration(1_500_000_000), "1 second 500 milliseconds");
    assert_eq!(format_duration(59_999_999_999), "59 seconds 999 milliseconds");
}

#[test]
fn above_a_minute_in_minutes_and_seconds() {
    assert_eq!(format_duration(60_000_000_001), "1 minute 0 seconds");
    assert_eq!(format_duration(61_000_000_000), "1 minute 1 second");
    assert_eq!(format_duration(121_000_000_005), "2 minutes 1 second");
    assert_eq!(format_duration(3_600_000_000_000), "60 minutes 0 seconds");
}

#[test]
fn the_longest_time_a_clock_can_give() {
    let nanos = std::time::Duration::MAX.as_nanos();
    assert_eq!(nanos, 18_446_744_073_709_551_615_999_999_999);
    assert_eq!(format_duration(nanos), "307445734561825860 minutes 15 seconds");
}

#[test]
fn numbers_are_written_as_the_formatter_writes_them() {
    for n in [7u128, 10, 11, 99, 100, 101, 909, 990] {
        assert_eq!(format_duration(n), format!("{} nanoseconds", n));
    }
    for secs in [2u128, 9, 10, 19, 20, 59] {
        assert_eq!(format_duration(secs * 1_000_000_000), format!("{} seconds", secs));
    }
}
