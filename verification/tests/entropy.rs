use eth_keygen::entropy::{pack_time, NANOS_PER_SEC};
use eth_keygen::get_nstime;

#[test]
fn pack_time_shifts_seconds_and_joins_nanoseconds() {
    assert_eq!(pack_time(0, 0), 0);
    assert_eq!(pack_time(1, 5), 1_073_741_829);
    assert_eq!(pack_time(0, 999_999_999), 999_999_999);
    assert_eq!(pack_time(1_700_000_000, 123_456_789), (1_700_000_000u64 << 30) | 123_456_789);
}

#[test]
fn pack_time_is_not_a_multiplication() {
    assert_ne!(pack_time(1, 0), 1_000_000_000);
    assert_eq!(pack_time(1, 0), 1 << 30);
    assert_eq!(pack_time(2, 1), 2_147_483_649);
}

#[test]
fn pack_time_drops_seconds_above_thirty_four_bits() {
    assert_eq!(pack_time(u64::MAX, 0), u64::MAX << 30);
    assert_eq!(pack_time(1 << 34, 7), 7);
    assert_eq!(pack_time((1 << 34) | 3, 7), (3 << 30) | 7);
}

#[test]
fn pack_time_joins_by_or_when_nanoseconds_overlap() {
    assert_eq!(pack_time(1, u32::MAX), (1u64 << 30) | 0xFFFF_FFFF);
    assert_eq!(pack_time(1, 1 << 30), 1 << 30);
}

#[test]
fn clock_reading_keeps_nanoseconds_in_the_low_bits() {
    let t = get_nstime();
    assert!((t & 0x3FFF_FFFF) < NANOS_PER_SEC as u64);
    assert!(t >> 30 > 1_000_000_000);
}

#[test]
fn clock_reading_does_not_run_backwards_by_seconds() {
    let first = get_nstime();
    let second = get_nstime();
    assert!(second >> 30 >= first >> 30);
}
