use rml_rtmp::time::RtmpTimestamp;

#[test]
fn timestamp_holds_its_value() {
    let mut time = RtmpTimestamp::new(55);
    assert_eq!(time.value, 55);
    assert_eq!(time, 55);
    time.set(7);
    assert_eq!(time, RtmpTimestamp::new(7));
    assert!(time != 55);
}

#[test]
fn timestamp_addition_wraps() {
    assert_eq!(RtmpTimestamp::new(10).plus(15), 25);
    assert_eq!(RtmpTimestamp::new(0xFFFF_FFFF).plus(1), 0);
    assert_eq!(RtmpTimestamp::new(0xFFFF_FFF0).plus(0x20), 0x10);
}

#[test]
fn timestamp_subtraction_wraps() {
    assert_eq!(RtmpTimestamp::new(25).minus(15), 10);
    assert_eq!(RtmpTimestamp::new(0).minus(1), 0xFFFF_FFFF);
    assert_eq!(RtmpTimestamp::new(0x10).minus(0x20), 0xFFFF_FFF0);
}

#[test]
fn plus_then_minus_returns_to_the_start() {
    for (start, delta) in [(0u32, 0u32), (5, 0xFFFF_FFFF), (0xFFFF_FFFE, 17), (123, 456)] {
        assert_eq!(RtmpTimestamp::new(start).plus(delta).minus(delta), start);
    }
}

#[test]
fn elapsed_time_is_read_forward() {
    assert_eq!(RtmpTimestamp::new(30).elapsed_since(RtmpTimestamp::new(10)), 20);
    assert_eq!(RtmpTimestamp::new(5).elapsed_since(RtmpTimestamp::new(0xFFFF_FFFB)), 10);
    assert_eq!(RtmpTimestamp::new(10).elapsed_since(RtmpTimestamp::new(30)), 0xFFFF_FFEC);
}

#[test]
fn distance_is_signed_and_sees_through_the_wrap() {
    let near_end = RtmpTimestamp::new(0xFFFF_FFF0);
    let after_wrap = RtmpTimestamp::new(0x10);
    assert_eq!(near_end.distance_to(after_wrap), 0x20);
    assert_eq!(after_wrap.distance_to(near_end), -0x20);
    assert_eq!(RtmpTimestamp::new(0).distance_to(RtmpTimestamp::new(0x7FFF_FFFF)), 0x7FFF_FFFF);
    assert_eq!(RtmpTimestamp::new(0).distance_to(RtmpTimestamp::new(0x8000_0000)), -0x8000_0000);
    assert_eq!(RtmpTimestamp::new(9).distance_to(RtmpTimestamp::new(9)), 0);
}

#[test]
fn is_before_follows_the_distance() {
    assert!(RtmpTimestamp::new(1).is_before(RtmpTimestamp::new(2)));
    assert!(!RtmpTimestamp::new(2).is_before(RtmpTimestamp::new(1)));
    assert!(!RtmpTimestamp::new(2).is_before(RtmpTimestamp::new(2)));
    assert!(RtmpTimestamp::new(0xFFFF_FFFF).is_before(RtmpTimestamp::new(3)));
}

#[test]
fn operators_add_and_subtract_with_wrap() {
    assert_eq!(RtmpTimestamp::new(10) + 5, 15);
    assert_eq!(RtmpTimestamp::new(0xFFFF_FFFF) + 2, 1);
    assert_eq!(RtmpTimestamp::new(10) - 5, 5);
    assert_eq!(RtmpTimestamp::new(1) - 2, 0xFFFF_FFFF);
}
