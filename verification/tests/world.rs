use arbitrary::Unstructured;
use vm2_testkit::machine::Program;
use vm2_testkit::numeric::{H160, U256};
use vm2_testkit::world::{MockWorld, StorageInterface, StorageSlot, World};

fn word(n: u64) -> U256 {
    U256 { w0: n, w1: 0, w2: 0, w3: 0 }
}

#[test]
fn every_slot_holds_the_given_value() {
    let mut world = MockWorld::with_storage_slot(Some(word(42)));
    let expected = StorageSlot { value: word(42), is_write_initial: false };
    assert_eq!(world.read_storage(H160::zero(), U256::zero()), expected);
    assert_eq!(world.read_storage(H160 { bytes: [7; 20] }, word(9)), expected);
}

#[test]
fn world_without_a_value_reads_zero_and_awaits_its_first_write() {
    let mut world = MockWorld::with_storage_slot(None);
    let expected = StorageSlot { value: U256::zero(), is_write_initial: true };
    assert_eq!(world.read_storage(H160::zero(), word(1)), expected);
    let stored_zero = MockWorld::with_storage_slot(Some(U256::zero()))
        .read_storage(H160::zero(), word(1));
    assert_eq!(stored_zero, StorageSlot { value: U256::zero(), is_write_initial: false });
}

#[test]
fn writes_cost_fifty_and_no_slot_is_free() {
    let mut world = MockWorld::with_storage_slot(None);
    let slot = world.read_storage(H160::zero(), word(1));
    assert_eq!(world.cost_of_writing_storage(slot, word(3)), 50);
    assert!(!world.is_free_storage_slot(&H160::zero(), &word(1)));
}

#[test]
fn every_hash_decommits_to_the_same_code() {
    let mut world = MockWorld::with_storage_slot(Some(word(1)));
    assert_eq!(world.decommit(word(5)), Program { raw_first_instruction: 0, code_word: U256::zero() });
    assert_eq!(world.decommit(word(6)), world.decommit(word(5)));
    assert_eq!(world.decommit_code(word(5)), vec![0u8; 32]);
    assert_eq!(world.storage_slot.value, Some(word(1)));
}

#[test]
fn decommitted_program_agrees_with_decommitted_code() {
    let mut world = MockWorld::with_storage_slot(None);
    let program = world.decommit(word(5));
    let code = world.decommit_code(word(6));
    let page = program.code_word;
    let mut bytes = [0u8; 32];
    primitive_types::U256([page.w0, page.w1, page.w2, page.w3]).to_big_endian(&mut bytes);
    assert_eq!(code, bytes);
    let mut first = [0u8; 8];
    first.copy_from_slice(&code[..8]);
    assert_eq!(u64::from_be_bytes(first), program.raw_first_instruction);
}

#[test]
fn cloned_world_reads_the_same() {
    let world = MockWorld::with_storage_slot(Some(word(8)));
    assert_eq!(world.clone().storage_slot.value, Some(word(8)));
}

#[test]
fn arbitrary_world_with_a_value() {
    let mut data = vec![0x41u8];
    data.extend((1..=32).collect::<Vec<u8>>());
    data.push(99);
    let mut u = Unstructured::new(&data);
    let world = MockWorld::arbitrary(&mut u).unwrap();
    let expected = U256 {
        w0: 0x191a_1b1c_1d1e_1f20,
        w1: 0x1112_1314_1516_1718,
        w2: 0x090a_0b0c_0d0e_0f10,
        w3: 0x0102_0304_0506_0708,
    };
    assert_eq!(world.storage_slot.value, Some(expected));
    assert_eq!(u.len(), 1);
}

#[test]
fn arbitrary_world_without_a_value() {
    let data = [0x40u8, 1, 2, 3];
    let mut u = Unstructured::new(&data);
    assert_eq!(MockWorld::arbitrary(&mut u).unwrap().storage_slot.value, None);
    assert_eq!(u.len(), 3);
}

#[test]
fn arbitrary_world_from_too_few_bytes() {
    let mut u = Unstructured::new(&[]);
    assert_eq!(MockWorld::arbitrary(&mut u).unwrap().storage_slot.value, None);

    let data = [1u8, 0x80];
    let mut u = Unstructured::new(&data);
    let value = MockWorld::arbitrary(&mut u).unwrap().storage_slot.value;
    assert_eq!(value, Some(U256 { w0: 0, w1: 0, w2: 0, w3: 0x8000_0000_0000_0000 }));
    assert_eq!(u.len(), 0);
}

#[test]
fn arbitrary_world_agrees_with_an_arbitrary_option() {
    for first in 0..4u8 {
        let mut data: Vec<u8> = (0..40).map(|i| i * 6).collect();
        data[0] = first;
        let mut u = Unstructured::new(&data);
        let mut v = Unstructured::new(&data);
        let outside: Option<primitive_types::U256> = v.arbitrary().unwrap();
        let ours = MockWorld::arbitrary(&mut u).unwrap().storage_slot.value;
        let ours = ours.map(|n| primitive_types::U256([n.w0, n.w1, n.w2, n.w3]));
        assert_eq!(ours, outside);
        assert_eq!(u.len(), v.len());
    }
}
