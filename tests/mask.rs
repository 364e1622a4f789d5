use metro_core::MaskU8;

#[test]
fn next_higher_and_lower() {
    let mask = MaskU8(0b_1001_0010);
    assert_eq!(Some(4), mask.next_higher(1));
    assert_eq!(Some(1), mask.next_higher(0));
    assert_eq!(Some(7), mask.next_higher(4));
    assert_eq!(None, mask.next_higher(7));
    assert_eq!(Some(4), mask.next_lower(7));
    assert_eq!(Some(1), mask.next_lower(4));
    assert_eq!(None, mask.next_lower(1));
    assert_eq!(Some(7), mask.next_lower(8));
}

#[test]
fn next_lower_of_zero_is_none() {
    assert_eq!(None, MaskU8(0xff).next_lower(0));
}

#[test]
fn lowest_and_highest() {
    assert_eq!(Some(0), MaskU8(0b_0000_0001).lowest());
    assert_eq!(Some(3), MaskU8(0b_0110_1000).lowest());
    assert_eq!(Some(6), MaskU8(0b_0110_1000).highest());
    assert_eq!(Some(7), MaskU8(0b_1000_0000).highest());
    assert_eq!(None, MaskU8(0).lowest());
    assert_eq!(None, MaskU8(0).highest());
}

#[test]
fn membership_and_count() {
    let mask = MaskU8(0b_0101_0011);
    assert!(mask.is_set(0));
    assert!(mask.is_set(1));
    assert!(!mask.is_set(2));
    assert!(mask.is_set(6));
    assert!(!mask.is_set(7));
    assert_eq!(4, mask.count());
    assert_eq!(8, MaskU8(0xff).count());
    assert_eq!(0, MaskU8::new().count());
    assert_eq!(MaskU8(0), MaskU8::new());
}
