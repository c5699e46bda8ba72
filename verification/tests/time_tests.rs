use libplist::time::{Timestamp, TIMESTAMP_OFFSET};
use libplist::{FromPlistNode, OwnedNode, ToPlistNode};

fn roundtrip(given: Timestamp) {
    let n = given.to_plist_node();
    let b: Timestamp = FromPlistNode::from_plist_node(&n).unwrap();
    let m = b.to_plist_node();
    assert_eq!(b, given);
    assert_eq!(n, m);
}

#[test]
fn test_timestamp_offset() {
    assert_eq!(TIMESTAMP_OFFSET, 978307200);
    let start = Timestamp { secs: 978307200, nanos: 0 };
    assert_eq!(start.to_plist_node(), OwnedNode::new_date(0, 0));
    assert_eq!(Timestamp::from_plist_node(&OwnedNode::new_date(0, 0)).unwrap(), start);
}

#[test]
fn test_date_after_2001_roundtrip() {
    // 1234567890123 ms after 1970
    let t = Timestamp::after_epoch(1234567890, 123_000_000).unwrap();
    assert_eq!(t, Timestamp { secs: 1234567890, nanos: 123_000_000 });
    assert_eq!(t.to_plist_node(), OwnedNode::new_date(256260690, 123_000));
    roundtrip(t);
}

#[test]
fn test_date_after_1970_roundtrip() {
    // 123456789012 ms after 1970
    let t = Timestamp::after_epoch(123456789, 12_000_000).unwrap();
    assert_eq!(t.to_plist_node(), OwnedNode::new_date(-854850411, 12_000));
    roundtrip(t);
}

#[test]
fn test_date_before_1970_roundtrip() {
    // 123456789012 ms before 1970
    let t = Timestamp::before_epoch(123456789, 12_000_000).unwrap();
    assert_eq!(t, Timestamp { secs: -123456790, nanos: 988_000_000 });
    assert_eq!(t.to_plist_node(), OwnedNode::new_date(-1101763990, 988_000));
    roundtrip(t);
}

#[test]
fn test_date_before_1970_round_secs_roundtrip() {
    let t = Timestamp::before_epoch(123456789, 0).unwrap();
    assert_eq!(t, Timestamp { secs: -123456789, nanos: 0 });
    assert_eq!(t.to_plist_node(), OwnedNode::new_date(-1101763989, 0));
    roundtrip(t);
}

#[test]
fn test_date_roundtrip_after_2001() {
    // 2005-06-30T13:44:07.123456Z
    let t = Timestamp { secs: 1120139047, nanos: 123_456_000 };
    assert_eq!(t.to_plist_node(), OwnedNode::new_date(141831847, 123_456));
    roundtrip(t);
}

#[test]
fn test_date_roundtrip_before_2001() {
    // 1952-12-04T23:59:59.999999Z
    let t = Timestamp { secs: -538790401, nanos: 999_999_000 };
    assert_eq!(t.to_plist_node(), OwnedNode::new_date(-1517097601, 999_999));
    roundtrip(t);
}

#[test]
fn test_one_microsecond_before_1970() {
    let t = Timestamp::before_epoch(0, 1_000).unwrap();
    assert_eq!(t, Timestamp { secs: -1, nanos: 999_999_000 });
    assert_eq!(t.to_plist_node(), OwnedNode::new_date(-978307201, 999_999));
    roundtrip(t);
    assert_eq!(t.distance(), (true, 0, 1_000));
}

#[test]
fn test_nanoseconds_are_cut_to_microseconds() {
    let t = Timestamp { secs: -1, nanos: 999_999_999 };
    let back = Timestamp::from_plist_node(&t.to_plist_node()).unwrap();
    assert_eq!(back, Timestamp { secs: -1, nanos: 999_999_000 });
    let t = Timestamp { secs: 5, nanos: 1_999 };
    let back = Timestamp::from_plist_node(&t.to_plist_node()).unwrap();
    assert_eq!(back, Timestamp { secs: 5, nanos: 1_000 });
}

#[test]
fn test_seconds_out_of_range_are_cut_to_32_bits() {
    let t = Timestamp { secs: 978307200 + 0x1_0000_0005, nanos: 0 };
    assert_eq!(t.to_plist_node(), OwnedNode::new_date(5, 0));
    let last = Timestamp { secs: 3125790847, nanos: 0 };
    assert_eq!(last.to_plist_node(), OwnedNode::new_date(i32::MAX, 0));
    roundtrip(last);
    let first = Timestamp { secs: -1169176448, nanos: 0 };
    assert_eq!(first.to_plist_node(), OwnedNode::new_date(i32::MIN, 0));
    roundtrip(first);
}

#[test]
fn test_date_with_microseconds_out_of_the_second() {
    let n = OwnedNode::new_date(10, 2_500_000);
    assert_eq!(Timestamp::from_plist_node(&n).unwrap(), Timestamp { secs: 978307212, nanos: 500_000_000 });
    let n = OwnedNode::new_date(10, -1);
    assert_eq!(Timestamp::from_plist_node(&n).unwrap(), Timestamp { secs: 978307209, nanos: 999_999_000 });
    let n = OwnedNode::new_date(i32::MIN, i32::MIN);
    assert_eq!(
        Timestamp::from_plist_node(&n).unwrap(),
        Timestamp { secs: -1169176448 - 2148, nanos: 516_352_000 }
    );
}

#[test]
fn test_seconds_carry_from_the_nanoseconds() {
    let t = Timestamp { secs: 978307200, nanos: 2_000_001_000 };
    assert_eq!(t.to_plist_node(), OwnedNode::new_date(2, 1));
    assert_eq!(t.distance(), (false, 978307202, 1_000));
}

#[test]
fn test_after_and_before_epoch() {
    assert_eq!(Timestamp::after_epoch(0, 0), Some(Timestamp { secs: 0, nanos: 0 }));
    assert_eq!(Timestamp::before_epoch(0, 0), Some(Timestamp { secs: 0, nanos: 0 }));
    assert_eq!(Timestamp::after_epoch(1, 1_500_000_000), Some(Timestamp { secs: 2, nanos: 500_000_000 }));
    assert_eq!(Timestamp::before_epoch(1, 1_500_000_000), Some(Timestamp { secs: -3, nanos: 500_000_000 }));
    assert_eq!(Timestamp::after_epoch(i64::MAX as u64, 999_999_999), Some(Timestamp { secs: i64::MAX, nanos: 999_999_999 }));
    assert_eq!(Timestamp::after_epoch(i64::MAX as u64 + 1, 0), None);
    assert_eq!(Timestamp::after_epoch(u64::MAX, 0), None);
    assert_eq!(Timestamp::before_epoch(1 << 63, 0), Some(Timestamp { secs: i64::MIN, nanos: 0 }));
    assert_eq!(Timestamp::before_epoch(1 << 63, 1), None);
    assert_eq!(Timestamp::before_epoch((1 << 63) - 1, 1), Some(Timestamp { secs: i64::MIN, nanos: 999_999_999 }));
    assert_eq!(Timestamp::before_epoch(u64::MAX, 0), None);
}

#[test]
fn test_distance() {
    assert_eq!(Timestamp { secs: 0, nanos: 0 }.distance(), (false, 0, 0));
    assert_eq!(Timestamp { secs: 12, nanos: 34 }.distance(), (false, 12, 34));
    assert_eq!(Timestamp { secs: -12, nanos: 0 }.distance(), (true, 12, 0));
    assert_eq!(Timestamp { secs: -12, nanos: 250_000_000 }.distance(), (true, 11, 750_000_000));
    assert_eq!(Timestamp { secs: i64::MIN, nanos: 0 }.distance(), (true, 1 << 63, 0));
    assert_eq!(Timestamp { secs: i64::MAX, nanos: 4_000_000_000 }.distance(), (false, (1 << 63) + 3, 0));
}

#[test]
fn test_leap_second_counts_as_the_second_before() {
    let t = Timestamp::from_clock(1435708799, 1_500_000_000);
    assert_eq!(t, Timestamp { secs: 1435708799, nanos: 500_000_000 });
    assert_eq!(Timestamp::from_clock(-7, 999_999_999), Timestamp { secs: -7, nanos: 999_999_999 });
}
