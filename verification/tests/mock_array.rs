use vm2_testkit::mock_array::MockRead;

#[test]
fn every_index_holds_the_same_value() {
    let array: MockRead<u32, &str> = MockRead::new("same");
    assert_eq!(*array.get(0), "same");
    assert_eq!(*array.get(u32::MAX), "same");
}

#[test]
fn a_write_is_seen_at_every_index() {
    let mut array: MockRead<u8, u64> = MockRead::new(1);
    *array.get_mut(3) = 9;
    assert_eq!(*array.get(3), 9);
    assert_eq!(*array.get(200), 9);
    assert_eq!(array.clone().value, 9);
}
