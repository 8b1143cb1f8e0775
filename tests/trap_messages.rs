use latencymon::trap::{round_div, Reading, TrapConfig, Units};

#[test]
fn ms_units_round_to_whole_milliseconds() {
    assert_eq!(Units::Ms.latency_to_value(123_400_000), Reading::Whole(123));
    assert_eq!(Units::Ms.latency_to_value(1_500_000), Reading::Whole(2));
    assert_eq!(Units::Ms.latency_to_value(1_499_999), Reading::Whole(1));
}

#[test]
fn seconds_pass_through_unrounded() {
    assert_eq!(Units::S.latency_to_value(123_400_000), Reading::Seconds(123_400_000));
    let c = TrapConfig { oid: "sensor:latency/tcp".to_string(), units: Units::S };
    assert_eq!(c.latency_message(123_400_000), "u sensor:latency/tcp 1 0.1234");
}

#[test]
fn us_and_ns_units() {
    assert_eq!(Units::Us.latency_to_value(123_400_000), Reading::Whole(123_400));
    assert_eq!(Units::Us.latency_to_value(1_500), Reading::Whole(2));
    assert_eq!(Units::Ns.latency_to_value(123_400_000), Reading::Whole(123_400_000));
    assert_eq!(round_div(u64::MAX, 1_000), 18_446_744_073_709_552);
}

#[test]
fn trap_messages_carry_the_object_id() {
    let c = TrapConfig { oid: "sensor:x".to_string(), units: Units::Ms };
    assert_eq!(c.latency_message(123_400_000), "u sensor:x 1 123");
    assert_eq!(c.failure_message(), "u sensor:x -1");
}

#[test]
fn default_unit_is_seconds() {
    assert_eq!(Units::default(), Units::S);
}
