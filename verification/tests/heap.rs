use arbitrary::Unstructured;
use vm2_testkit::heap::{Heap, HeapId, Heaps};
use vm2_testkit::mock_array::MockRead;
use vm2_testkit::numeric::U256;

fn word(n: u64) -> U256 {
    U256 { w0: n, w1: 0, w2: 0, w3: 0 }
}

fn to_outside(n: U256) -> primitive_types::U256 {
    primitive_types::U256([n.w0, n.w1, n.w2, n.w3])
}

fn counting_word() -> [u8; 32] {
    let mut bytes = [0u8; 32];
    for (i, byte) in bytes.iter_mut().enumerate() {
        *byte = i as u8 + 1;
    }
    bytes
}

fn counting_heap() -> Heap {
    Heap { read: MockRead::new(counting_word()), write: None }
}

#[test]
fn heap_ids_are_page_numbers() {
    assert_eq!(HeapId::first().as_u32(), 10);
    assert_eq!(HeapId::from_u32_unchecked(7).as_u32(), 7);
    assert_eq!(HeapId::from_u32_unchecked(10), HeapId::first());
    assert_ne!(HeapId::from_u32_unchecked(11), HeapId::first());
}

#[test]
fn empty_heap_reads_zero_everywhere() {
    let heap = Heap::empty();
    assert_eq!(heap.read_u256(0), U256::zero());
    assert_eq!(heap.read_u256(u32::MAX), U256::zero());
    for visible in 0..=32u32 {
        assert_eq!(heap.read_u256_partially(5..5 + visible), U256::zero());
    }
    assert_eq!(heap.write, None);
}

#[test]
fn whole_read_is_little_endian() {
    let heap = counting_heap();
    let expected = U256 {
        w0: 0x0807_0605_0403_0201,
        w1: 0x100f_0e0d_0c0b_0a09,
        w2: 0x1817_1615_1413_1211,
        w3: 0x201f_1e1d_1c1b_1a19,
    };
    assert_eq!(heap.read_u256(0), expected);
    assert_eq!(heap.read_u256(1234), expected);
    assert_eq!(
        to_outside(heap.read_u256(0)),
        primitive_types::U256::from_little_endian(&counting_word())
    );
}

#[test]
fn partial_read_clears_the_low_bytes() {
    let heap = counting_heap();
    assert_eq!(heap.read_u256_partially(0..32), heap.read_u256(0));
    assert_eq!(heap.read_u256_partially(7..7), U256::zero());
    assert_eq!(
        heap.read_u256_partially(100..101),
        U256 { w0: 0, w1: 0, w2: 0, w3: 0x2000_0000_0000_0000 }
    );
    assert_eq!(
        heap.read_u256_partially(100..108),
        U256 { w0: 0, w1: 0, w2: 0, w3: 0x201f_1e1d_1c1b_1a19 }
    );
    assert_eq!(
        heap.read_u256_partially(0..31),
        U256 { w0: 0x0807_0605_0403_0200, ..heap.read_u256(0) }
    );
}

#[test]
fn partial_read_of_a_backward_range_sees_nothing() {
    let start: u32 = 40;
    let end: u32 = 3;
    assert_eq!(counting_heap().read_u256_partially(start..end), U256::zero());
}

#[test]
fn partial_read_rounds_down() {
    let heap = counting_heap();
    let whole = to_outside(heap.read_u256(0));
    for visible in 1..=32u32 {
        let unit = primitive_types::U256::from(256).pow(primitive_types::U256::from(32 - visible));
        let partial = to_outside(heap.read_u256_partially(0..visible));
        assert_eq!(partial, whole / unit * unit);
    }
}

#[test]
fn range_read_is_always_empty() {
    assert_eq!(counting_heap().read_range_big_endian(0..64), Vec::<u8>::new());
    assert_eq!(Heap::empty().read_range_big_endian(9..9), Vec::<u8>::new());
}

#[test]
fn word_write_is_recorded() {
    let mut heap = counting_heap();
    heap.write_u256(96, word(17));
    assert_eq!(heap.write, Some((96, word(17))));
    assert_eq!(heap.read.value, counting_word());
}

#[test]
fn byte_write_is_forgotten() {
    let mut heap = counting_heap();
    heap.write_bytes(0, &[9u8; 40]);
    assert_eq!(heap.write, None);
    assert_eq!(heap.read.value, counting_word());
    assert_eq!(heap.read_u256(0), counting_heap().read_u256(0));
}

#[test]
fn cloned_heap_holds_the_same() {
    let mut heap = counting_heap();
    heap.write_u256(1, word(2));
    let copy = heap.clone();
    assert_eq!(copy.write, Some((1, word(2))));
    assert_eq!(copy.read.value, counting_word());
}

#[test]
fn arbitrary_heap_takes_32_bytes() {
    let data: Vec<u8> = (1..=40).collect();
    let mut u = Unstructured::new(&data);
    let heap = Heap::arbitrary(&mut u).unwrap();
    assert_eq!(heap.read.value, counting_word());
    assert_eq!(heap.write, None);
    assert_eq!(u.len(), 8);
}

#[test]
fn arbitrary_heap_pads_with_zeros() {
    let data = [5u8, 6];
    let mut u = Unstructured::new(&data);
    let heap = Heap::arbitrary(&mut u).unwrap();
    assert_eq!(heap.read_u256(0), word(0x0605));
    assert_eq!(u.len(), 0);
    assert_eq!(Heap::arbitrary(&mut u).unwrap().read_u256(0), U256::zero());
}

#[test]
fn arbitrary_heap_agrees_with_arbitrary_bytes() {
    let data: Vec<u8> = (0..50).map(|i| i * 5).collect();
    let mut u = Unstructured::new(&data);
    let mut v = Unstructured::new(&data);
    let bytes: [u8; 32] = v.arbitrary().unwrap();
    assert_eq!(Heap::arbitrary(&mut u).unwrap().read.value, bytes);
    assert_eq!(u.len(), v.len());
}

#[test]
fn empty_heaps_read_zero_on_every_page() {
    let heaps = Heaps::empty(HeapId::first());
    assert_eq!(heaps.heap_id, HeapId::first());
    assert_eq!(heaps[HeapId::first()].read_u256(0), U256::zero());
    assert_eq!(heaps[HeapId::from_u32_unchecked(99)].read_u256(64), U256::zero());
}

#[test]
fn every_page_is_the_same_heap() {
    let mut heaps = Heaps::empty(HeapId::from_u32_unchecked(3));
    heaps.write_u256(HeapId::from_u32_unchecked(14), 32, word(77));
    assert_eq!(heaps[HeapId::from_u32_unchecked(14)].write, Some((32, word(77))));
    assert_eq!(heaps[HeapId::from_u32_unchecked(15)].write, Some((32, word(77))));
    assert_eq!(heaps.heap_id, HeapId::from_u32_unchecked(3));
}

#[test]
fn allocation_hands_out_pages() {
    let mut heaps = Heaps::empty(HeapId::from_u32_unchecked(3));
    assert_eq!(heaps.allocate().as_u32(), 3);
    assert_eq!(heaps.allocate().as_u32(), 3);
    assert_eq!(heaps.allocate_at(HeapId::from_u32_unchecked(8)).as_u32(), 8);
    heaps.deallocate(HeapId::from_u32_unchecked(3));
    assert_eq!(heaps.allocate().as_u32(), 3);
    assert_eq!(heaps[HeapId::first()].write, None);
}

#[test]
fn allocation_with_content_records_a_big_endian_word() {
    let mut heaps = Heaps::empty(HeapId::from_u32_unchecked(3));
    assert_eq!(heaps.allocate_with_content(&[1, 2, 3]).as_u32(), 3);
    assert_eq!(heaps[HeapId::first()].write, Some((0, word(0x01_0203))));

    let mut heaps = Heaps::empty(HeapId::first());
    heaps.allocate_with_content(&counting_word());
    let (address, value) = heaps[HeapId::first()].write.unwrap();
    assert_eq!(address, 0);
    assert_eq!(to_outside(value), primitive_types::U256::from_big_endian(&counting_word()));

    let mut heaps = Heaps::empty(HeapId::first());
    heaps.allocate_with_content(&[]);
    assert_eq!(heaps[HeapId::first()].write, Some((0, U256::zero())));
}

#[test]
fn allocation_with_content_at_a_page_records_nothing() {
    let mut heaps = Heaps::empty(HeapId::first());
    let page = heaps.allocate_with_content_at(HeapId::from_u32_unchecked(21), &[1u8; 64]);
    assert_eq!(page.as_u32(), 21);
    assert_eq!(heaps[page].write, None);
    heaps.write_bytes(page, 5, &[1, 2, 3]);
    assert_eq!(heaps[page].write, None);
    assert_eq!(heaps[page].read_u256(0), U256::zero());
}

#[test]
fn heaps_from_id_draw_one_word() {
    let data: Vec<u8> = (1..=33).collect();
    let mut u = Unstructured::new(&data);
    let heaps = Heaps::from_id(HeapId::from_u32_unchecked(6), &mut u).unwrap();
    assert_eq!(heaps.heap_id.as_u32(), 6);
    assert_eq!(heaps[HeapId::first()].read.value, counting_word());
    assert_eq!(heaps[HeapId::first()].write, None);
    assert_eq!(u.len(), 1);
}

#[test]
fn heaps_never_compare_equal() {
    let heaps = Heaps::empty(HeapId::first());
    assert!(heaps != heaps);
    assert!(heaps != heaps.clone());
}

#[test]
fn cloned_heaps_hold_the_same() {
    let mut heaps = Heaps::empty(HeapId::from_u32_unchecked(4));
    heaps.write_u256(HeapId::first(), 8, word(9));
    let copy = heaps.clone();
    assert_eq!(copy.heap_id.as_u32(), 4);
    assert_eq!(copy[HeapId::first()].write, Some((8, word(9))));
}
