//! The mocked outside world: one storage value and one program for everything.
use arbitrary::Unstructured;
use vstd::prelude::*;

use crate::machine::{decommitted_program, page_bytes, Program};
use crate::mock_array::MockRead;
use crate::numeric::{
    be_value, lemma_be_bytes_of_zero, lemma_zero_bytes_value, zero_bytes, H160, U256,
};
use crate::source::{arbitrary_slot, drawn_slot, left_over_slot, remaining_bytes, slot_value};

verus! {

/// What a storage slot holds, and whether writing it would be its first write.
#[derive(Clone, Copy, Debug, PartialEq, Eq, Structural)]
pub struct StorageSlot {
    pub value: U256,
    pub is_write_initial: bool,
}

/// What the machine asks of the embedder's storage.
pub trait StorageInterface {
    /// Reads the slot `key` of `contract`.
    fn read_storage(&mut self, contract: H160, key: U256) -> (slot: StorageSlot);

    /// What it costs to write `new_value` where `initial_slot` was read.
    fn cost_of_writing_storage(&mut self, initial_slot: StorageSlot, new_value: U256) -> (cost:
        u32);

    /// Whether reading and writing the slot `key` of `contract` is free.
    fn is_free_storage_slot(&self, contract: &H160, key: &U256) -> (free: bool);
}

/// What the machine asks of the embedder beyond storage.
pub trait World: StorageInterface {
    /// The program with code hash `hash`.
    fn decommit(&mut self, hash: U256) -> (program: Program);

    /// The bytes of the program with code hash `hash`. They should be the words of its
    /// code page, written out.
    fn decommit_code(&mut self, hash: U256) -> (code: Vec<u8>);
}

/// A world in which every storage slot holds the same optional value.
#[derive(Debug)]
pub struct MockWorld {
    pub storage_slot: MockRead<(H160, U256), Option<U256>>,
}

impl View for MockWorld {
    type V = Option<U256>;

    open spec fn view(&self) -> Option<U256> {
        self.storage_slot.value
    }
}

impl MockWorld {
    /// The world that returns `value` for any storage slot read.
    pub fn with_storage_slot(value: Option<U256>) -> (world: MockWorld)
        ensures
            world@ == value,
    {
        MockWorld { storage_slot: MockRead::new(value) }
    }

    /// A world whose storage value is drawn from `u`.
    pub fn arbitrary(u: &mut Unstructured<'_>) -> (world: Result<MockWorld, arbitrary::Error>)
        ensures
            world is Ok,
            slot_value(world->Ok_0@) == drawn_slot(remaining_bytes(*old(u))),
            slot_value(world->Ok_0.storage_slot.value) == drawn_slot(remaining_bytes(*old(u))),
            remaining_bytes(*final(u)) == left_over_slot(remaining_bytes(*old(u))),
    {
        match arbitrary_slot(u) {
            Ok(value) => Ok(MockWorld::with_storage_slot(value)),
            Err(error) => Err(error),
        }
    }
}

impl Clone for MockWorld {
    fn clone(&self) -> (world: MockWorld)
        ensures
            world@ == self@,
    {
        MockWorld { storage_slot: MockRead::new(self.storage_slot.value) }
    }
}

impl World for MockWorld {
    /// Every hash leads to the same program.
    fn decommit(&mut self, hash: U256) -> (program: Program)
        ensures
            *final(self) == *old(self),
            program == decommitted_program(),
            program.raw_first_instruction == 0,
            program.code_word@ == 0,
    {
        Program::for_decommit()
    }

    /// Every hash leads to one zero word of code.
    fn decommit_code(&mut self, hash: U256) -> (code: Vec<u8>)
        ensures
            *final(self) == *old(self),
            code@ == zero_bytes(32),
    {
        let code = vec![0u8; 32];
        assert(code@ =~= zero_bytes(32));
        code
    }
}

impl StorageInterface for MockWorld {
    /// The world's value, or zero where it has none, whatever the slot. Writing a
    /// slot without a value is its first write.
    fn read_storage(&mut self, contract: H160, key: U256) -> (slot: StorageSlot)
        ensures
            *final(self) == *old(self),
            slot.value == match old(self)@ {
                Some(value) => value,
                None => U256 { w0: 0, w1: 0, w2: 0, w3: 0 },
            },
            slot.is_write_initial == (old(self)@ is None),
            old(self).storage_slot.value matches Some(value) ==> slot.value == value
                && !slot.is_write_initial,
            old(self).storage_slot.value is None ==> slot.value@ == 0 && slot.is_write_initial,
    {
        let value = *self.storage_slot.get((contract, key));
        StorageSlot {
            value: match value {
                Some(value) => value,
                None => U256::zero(),
            },
            is_write_initial: value.is_none(),
        }
    }

    /// Every write costs the same.
    fn cost_of_writing_storage(&mut self, initial_slot: StorageSlot, new_value: U256) -> (cost: u32)
        ensures
            *final(self) == *old(self),
            cost == 50,
    {
        50
    }

    /// No slot is free.
    fn is_free_storage_slot(&self, contract: &H160, key: &U256) -> (free: bool)
        ensures
            !free,
    {
        false
    }
}

/// The two ways to decommit agree, whatever the hashes: `program`, as
/// [`MockWorld`] decommits it, has a code page that, written out, is `code`, the bytes
/// that [`MockWorld`] decommits, and its first instruction is the first eight of them.
pub proof fn lemma_decommitted_program_agrees_with_code(program: Program, code: Seq<u8>)
    requires
        program == decommitted_program(),
        code == zero_bytes(32),
    ensures
        page_bytes(program.code_page()) == code,
        be_value(code.take(8)) == program.raw_first_instruction,
{
    let page = program.code_page();
    reveal_with_fuel(page_bytes, 2);
    lemma_be_bytes_of_zero(32);
    assert(page_bytes(page) =~= code);
    assert(code.take(8) =~= zero_bytes(8));
    lemma_zero_bytes_value(8);
}

/// The world made with a value holds that value.
pub proof fn lemma_world_holds_its_value(value: Option<U256>, world: MockWorld)
    requires
        call_ensures(MockWorld::with_storage_slot, (value,), world),
    ensures
        world.storage_slot.value == value,
        world@ == world.storage_slot.value,
{
}

/// A copied world holds the same value.
pub proof fn lemma_copied_world(world: MockWorld, copy: MockWorld)
    requires
        call_ensures(MockWorld::clone, (&world,), copy),
    ensures
        copy.storage_slot.value == world.storage_slot.value,
{
}

} // verus!
