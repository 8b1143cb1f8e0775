use latencymon::text::{decimal, seconds};

#[test]
fn decimal_renders_zero_and_extremes() {
    assert_eq!(decimal(0), "0");
    assert_eq!(decimal(7), "7");
    assert_eq!(decimal(1234567890), "1234567890");
    assert_eq!(decimal(u64::MAX), "18446744073709551615");
}

#[test]
fn seconds_trims_trailing_zeros() {
    assert_eq!(seconds(0), "0");
    assert_eq!(seconds(1_500_000_000), "1.5");
    assert_eq!(seconds(25_000_000), "0.025");
    assert_eq!(seconds(3_000_000_000), "3");
    assert_eq!(seconds(1), "0.000000001");
    assert_eq!(seconds(123_400_000), "0.1234");
    assert_eq!(seconds(1_700_000_000_123_456_789), "1700000000.123456789");
}
