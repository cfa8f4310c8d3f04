//! The parts of the machine that a single-instruction test sets up and compares.
use vstd::prelude::*;

use crate::heap::{HeapId, Heaps, HeapsView};
use crate::mock_array::MockRead;
use crate::numeric::{be_bytes, be_value, zero_address, zero_bytes, H160, U256};
use crate::opcode::{
    decode, lemma_opcode_names, opcode_table_entry, table_bits, word_says, Instruction,
    InstructionView, FAR_CALL_FAMILY,
};

verus! {

/// How many leading bytes of a kernel address are zero.
pub const KERNEL_PREFIX_LEN: usize = 18;

/// Parameters of the machine that no instruction changes.
#[derive(Clone, Copy, Debug, PartialEq, Eq)]
pub struct Settings {
    pub default_aa_code_hash: [u8; 32],
    pub evm_interpreter_code_hash: [u8; 32],
    pub hook_address: u32,
}

/// The comparison flags.
#[derive(Clone, Copy, Debug, PartialEq, Eq, Structural)]
pub struct Flags {
    pub lt_of: bool,
    pub eq: bool,
    pub gt: bool,
}

impl Flags {
    pub fn new(lt_of: bool, eq: bool, gt: bool) -> (flags: Flags)
        ensures
            flags == (Flags { lt_of, eq, gt }),
    {
        Flags { lt_of, eq, gt }
    }
}

/// A program of which only the first instruction word is known, and whose code page
/// is a single word.
#[derive(Clone, Copy, Debug, PartialEq, Eq, Structural)]
pub struct Program {
    pub raw_first_instruction: u64,
    /// The one word of the code page.
    pub code_word: U256,
}

/// The program that starts with `raw_first_instruction`, with a code page of zero.
pub open spec fn program_of(raw_first_instruction: u64) -> Program {
    Program { raw_first_instruction, code_word: U256 { w0: 0, w1: 0, w2: 0, w3: 0 } }
}

/// The program that every decommitment yields: it starts with the zero word.
pub open spec fn decommitted_program() -> Program {
    program_of(0)
}

/// The words of `page` one after the other, each as 32 bytes, most significant first.
pub open spec fn page_bytes(page: Seq<U256>) -> Seq<u8>
    decreases page.len(),
{
    if page.len() == 0 {
        Seq::empty()
    } else {
        be_bytes(page[0]@, 32) + page_bytes(page.drop_first())
    }
}

impl Program {
    /// The words of the program's code.
    pub open spec fn code_page(self) -> Seq<U256> {
        seq![self.code_word]
    }

    /// The program that starts with `raw_first_instruction`.
    pub fn with_raw_first_instruction(raw_first_instruction: u64) -> (program: Program)
        ensures
            program == program_of(raw_first_instruction),
    {
        Program { raw_first_instruction, code_word: U256::zero() }
    }

    /// The program that every decommitment yields.
    pub fn for_decommit() -> (program: Program)
        ensures
            program == decommitted_program(),
    {
        Program { raw_first_instruction: 0, code_word: U256::zero() }
    }
}

/// A mocked stack: every slot holds the same word and pointer flag.
#[derive(Debug)]
pub struct Stack {
    pub read: MockRead<u16, (U256, bool)>,
}

/// Where frames get their stacks from.
#[derive(Clone, Copy, Debug, PartialEq, Eq, Structural)]
pub struct StackPool {}

impl StackPool {
    /// An empty stack: every slot holds zero, which is no pointer.
    pub fn get(&mut self) -> (stack: Stack)
        ensures
            *final(self) == *old(self),
            stack.read.value == (U256 { w0: 0, w1: 0, w2: 0, w3: 0 }, false),
    {
        Stack { read: MockRead::new((U256::zero(), false)) }
    }
}

/// How far the effects on the outside world had come at some point: the length of
/// each history, and the pubdata counter.
#[derive(Clone, Copy, Debug, PartialEq, Eq, Structural)]
pub struct Snapshot {
    pub storage_changes: usize,
    pub paid_changes: usize,
    pub events: usize,
    pub l2_to_l1_logs: usize,
    pub transient_storage_changes: usize,
    pub storage_logs: usize,
    pub rollback_storage_logs: usize,
    pub pubdata: i32,
}

/// The effects on the outside world, of which only their extent matters here.
#[derive(Clone, Copy, Debug, PartialEq, Eq, Structural)]
pub struct WorldDiff {
    pub extent: Snapshot,
}

/// The extent of no effects at all.
pub open spec fn no_effects() -> Snapshot {
    Snapshot {
        storage_changes: 0,
        paid_changes: 0,
        events: 0,
        l2_to_l1_logs: 0,
        transient_storage_changes: 0,
        storage_logs: 0,
        rollback_storage_logs: 0,
        pubdata: 0,
    }
}

impl Default for WorldDiff {
    /// No effects.
    fn default() -> (diff: WorldDiff)
        ensures
            diff == (WorldDiff { extent: no_effects() }),
    {
        WorldDiff {
            extent: Snapshot {
                storage_changes: 0,
                paid_changes: 0,
                events: 0,
                l2_to_l1_logs: 0,
                transient_storage_changes: 0,
                storage_logs: 0,
                rollback_storage_logs: 0,
                pubdata: 0,
            },
        }
    }
}

impl WorldDiff {
    /// The point to which a failing frame that starts now is rolled back.
    pub fn snapshot(&self) -> (snapshot: Snapshot)
        ensures
            snapshot == self.extent,
    {
        self.extent
    }
}

/// What a near call saves of the frame that it starts in.
#[derive(Clone, Copy, Debug, PartialEq, Eq, Structural)]
pub struct NearCallFrame {
    pub sp: u16,
    pub gas: u32,
    pub pc: u16,
    pub exception_handler: u16,
    pub world_before_this_frame: Snapshot,
}

/// A far-call frame.
#[derive(Debug)]
pub struct Callframe {
    pub address: H160,
    pub code_address: H160,
    pub caller: H160,
    pub exception_handler: u16,
    pub context_u128: u128,
    pub is_static: bool,
    pub is_kernel: bool,
    pub stack: Stack,
    pub sp: u16,
    pub gas: u32,
    pub near_calls: Vec<NearCallFrame>,
    pub pc: u16,
    pub program: Program,
    pub heap: HeapId,
    pub aux_heap: HeapId,
    pub heap_size: u32,
    pub aux_heap_size: u32,
    pub calldata_heap: HeapId,
    pub heaps_i_am_keeping_alive: Vec<HeapId>,
    pub world_before_this_frame: Snapshot,
}

/// What a frame holds.
pub struct CallframeView {
    pub address: H160,
    pub code_address: H160,
    pub caller: H160,
    pub exception_handler: u16,
    pub context_u128: u128,
    pub is_static: bool,
    pub is_kernel: bool,
    pub stack_slot: (U256, bool),
    pub sp: u16,
    pub gas: u32,
    pub near_calls: Seq<NearCallFrame>,
    pub pc: u16,
    pub program: Program,
    pub heap: HeapId,
    pub aux_heap: HeapId,
    pub heap_size: u32,
    pub aux_heap_size: u32,
    pub calldata_heap: HeapId,
    pub heaps_i_am_keeping_alive: Seq<HeapId>,
    pub world_before_this_frame: Snapshot,
}

impl View for Callframe {
    type V = CallframeView;

    open spec fn view(&self) -> CallframeView {
        CallframeView {
            address: self.address,
            code_address: self.code_address,
            caller: self.caller,
            exception_handler: self.exception_handler,
            context_u128: self.context_u128,
            is_static: self.is_static,
            is_kernel: self.is_kernel,
            stack_slot: self.stack.read.value,
            sp: self.sp,
            gas: self.gas,
            near_calls: self.near_calls@,
            pc: self.pc,
            program: self.program,
            heap: self.heap,
            aux_heap: self.aux_heap,
            heap_size: self.heap_size,
            aux_heap_size: self.aux_heap_size,
            calldata_heap: self.calldata_heap,
            heaps_i_am_keeping_alive: self.heaps_i_am_keeping_alive@,
            world_before_this_frame: self.world_before_this_frame,
        }
    }
}

/// The frame that is zero throughout.
pub open spec fn dummy_frame() -> CallframeView {
    let nobody = zero_address();
    let no_page = HeapId { page: 0 };
    CallframeView {
        address: nobody,
        code_address: nobody,
        caller: nobody,
        exception_handler: 0,
        context_u128: 0,
        is_static: false,
        is_kernel: false,
        stack_slot: (U256 { w0: 0, w1: 0, w2: 0, w3: 0 }, false),
        sp: 0,
        gas: 0,
        near_calls: Seq::empty(),
        pc: 0,
        program: decommitted_program(),
        heap: no_page,
        aux_heap: no_page,
        heap_size: 0,
        aux_heap_size: 0,
        calldata_heap: no_page,
        heaps_i_am_keeping_alive: Seq::empty(),
        world_before_this_frame: no_effects(),
    }
}

impl Callframe {
    /// A frame to lie unused at the bottom of the call stack.
    pub fn dummy() -> (frame: Callframe)
        ensures
            frame@ == dummy_frame(),
    {
        let mut stack_pool = StackPool {  };
        Callframe {
            address: H160::zero(),
            code_address: H160::zero(),
            caller: H160::zero(),
            exception_handler: 0,
            context_u128: 0,
            is_static: false,
            is_kernel: false,
            stack: stack_pool.get(),
            sp: 0,
            gas: 0,
            near_calls: Vec::new(),
            pc: 0,
            program: Program::for_decommit(),
            heap: HeapId::from_u32_unchecked(0),
            aux_heap: HeapId::from_u32_unchecked(0),
            heap_size: 0,
            aux_heap_size: 0,
            calldata_heap: HeapId::from_u32_unchecked(0),
            heaps_i_am_keeping_alive: Vec::new(),
            world_before_this_frame: WorldDiff::default().snapshot(),
        }
    }
}

/// Everything that instructions read and write.
#[derive(Debug)]
pub struct State {
    pub registers: [U256; 16],
    pub register_pointer_flags: u16,
    pub flags: Flags,
    pub current_frame: Callframe,
    pub previous_frames: Vec<Callframe>,
    pub heaps: Heaps,
    pub transaction_number: u16,
    pub context_u128: u128,
    pub next_base_page: u32,
}

/// What a state holds.
pub struct StateView {
    pub registers: [U256; 16],
    pub register_pointer_flags: u16,
    pub flags: Flags,
    pub current_frame: CallframeView,
    pub previous_frames: Seq<CallframeView>,
    pub heaps: HeapsView,
    pub transaction_number: u16,
    pub context_u128: u128,
    pub next_base_page: u32,
}

impl View for State {
    type V = StateView;

    open spec fn view(&self) -> StateView {
        StateView {
            registers: self.registers,
            register_pointer_flags: self.register_pointer_flags,
            flags: self.flags,
            current_frame: self.current_frame@,
            previous_frames: self.previous_frames@.map_values(|frame: Callframe| frame@),
            heaps: self.heaps@,
            transaction_number: self.transaction_number,
            context_u128: self.context_u128,
            next_base_page: self.next_base_page,
        }
    }
}

/// A point in time that the embedder can return the machine to.
#[derive(Clone, Copy, Debug, PartialEq, Eq, Structural)]
pub struct VmSnapshot {
    pub world: Snapshot,
}

/// The machine.
#[derive(Debug)]
pub struct VirtualMachine {
    pub world_diff: WorldDiff,
    pub state: State,
    pub settings: Settings,
    pub stack_pool: StackPool,
    pub snapshot: Option<VmSnapshot>,
}

/// What a machine holds.
pub struct VirtualMachineView {
    pub world_diff: WorldDiff,
    pub state: StateView,
    pub settings: Settings,
    pub snapshot: Option<VmSnapshot>,
}

impl View for VirtualMachine {
    type V = VirtualMachineView;

    open spec fn view(&self) -> VirtualMachineView {
        VirtualMachineView {
            world_diff: self.world_diff,
            state: self.state@,
            settings: self.settings,
            snapshot: self.snapshot,
        }
    }
}

/// Whether the instruction word `word` is a far call.
pub open spec fn says_far_call(word: u64) -> bool {
    let entry = opcode_table_entry(table_bits(word));
    entry.0 == FAR_CALL_FAMILY && 0 <= entry.1 < 3
}

impl VirtualMachine {
    /// Whether the instruction that the machine is about to execute is a far call.
    pub fn instruction_is_far_call(&self) -> (far_call: bool)
        ensures
            far_call == says_far_call(self@.state.current_frame.program.raw_first_instruction),
            forall|instruction: InstructionView| #[trigger]
                word_says(self.state.current_frame.program.raw_first_instruction, instruction) ==> (
                far_call <==> instruction.opcode is FarCall),
    {
        let word: u64 = self.state.current_frame.program.raw_first_instruction;
        proof {
            assert forall|instruction: InstructionView| #[trigger]
                word_says(word, instruction) implies (says_far_call(word)
                <==> instruction.opcode is FarCall) by {
                lemma_says_far_call(word, instruction);
            }
        }
        decode(word).is_far_call()
    }
}

/// Whether `address` belongs to the kernel: its first 18 bytes are zero.
pub open spec fn kernel_address(address: H160) -> bool {
    forall|i: int| 0 <= i < KERNEL_PREFIX_LEN ==> address.bytes@[i] == 0
}

/// Whether `address` belongs to the kernel.
pub fn is_kernel(address: H160) -> (kernel: bool)
    ensures
        kernel == kernel_address(address),
{
    let mut i: usize = 0;
    while i < KERNEL_PREFIX_LEN
        invariant
            i <= KERNEL_PREFIX_LEN,
            forall|j: int| 0 <= j < i ==> address.bytes@[j] == 0,
        decreases KERNEL_PREFIX_LEN - i,
    {
        if address.bytes[i] != 0 {
            return false;
        }
        i += 1;
    }
    true
}

/// The kernel addresses are those below `2^16`.
pub proof fn lemma_kernel_addresses_are_low(address: H160)
    ensures
        kernel_address(address) <==> be_value(address.bytes@) < 0x1_0000,
{
    let bytes = address.bytes@;
    let prefix = bytes.take(KERNEL_PREFIX_LEN as int);
    assert(bytes.drop_last().drop_last() =~= prefix);
    assert(be_value(bytes.drop_last()) == 256 * be_value(prefix) + bytes[18]);
    lemma_be_value_zero(prefix);
    if kernel_address(address) {
        assert forall|i: int| 0 <= i < prefix.len() implies prefix[i] == 0 by {}
    } else if be_value(prefix) == 0 {
        assert forall|i: int| 0 <= i < KERNEL_PREFIX_LEN implies bytes[i] == 0 by {
            assert(prefix[i] == 0);
        }
    }
}

/// A big-endian number is zero exactly if all its bytes are.
proof fn lemma_be_value_zero(bytes: Seq<u8>)
    ensures
        be_value(bytes) == 0 <==> (forall|i: int| 0 <= i < bytes.len() ==> bytes[i] == 0),
    decreases bytes.len(),
{
    if bytes.len() > 0 {
        let shorter = bytes.drop_last();
        lemma_be_value_zero(shorter);
        if be_value(bytes) == 0 {
            assert forall|i: int| 0 <= i < bytes.len() implies bytes[i] == 0 by {
                if i < shorter.len() {
                    assert(shorter[i] == 0);
                }
            }
        } else if forall|i: int| 0 <= i < bytes.len() ==> bytes[i] == 0 {
            assert forall|i: int| 0 <= i < shorter.len() implies shorter[i] == 0 by {
                assert(bytes[i] == 0);
            }
        }
    }
}

/// A word is a far call exactly if the instruction that it says is one: no word of
/// another family is.
pub proof fn lemma_says_far_call(word: u64, instruction: InstructionView)
    requires
        word_says(word, instruction),
    ensures
        says_far_call(word) <==> instruction.opcode is FarCall,
        says_far_call(word) <==> opcode_table_entry(word as int % 0x800).0 == 13 && 0
            <= opcode_table_entry(word as int % 0x800).1 < 3,
{
    lemma_opcode_names(instruction.opcode);
}

/// The machine is about to execute a far call exactly if decoding its program's first
/// word yields one.
pub proof fn lemma_far_call_is_what_decoding_yields(
    vm: VirtualMachine,
    far_call: bool,
    decoded: Instruction,
)
    requires
        call_ensures(VirtualMachine::instruction_is_far_call, (&vm,), far_call),
        call_ensures(
            decode,
            (vm.state.current_frame.program.raw_first_instruction,),
            decoded,
        ),
    ensures
        far_call <==> decoded.opcode is FarCall,
{
    lemma_says_far_call(vm.state.current_frame.program.raw_first_instruction, decoded@);
}

/// An address is the kernel's exactly if its first 18 bytes are zero, that is, if it is
/// below `2^16`.
pub proof fn lemma_is_kernel(address: H160, kernel: bool)
    requires
        call_ensures(is_kernel, (address,), kernel),
    ensures
        kernel <==> (forall|i: int| 0 <= i < 18 ==> address.bytes@[i] == 0),
        kernel <==> be_value(address.bytes@) < 0x1_0000,
{
    lemma_kernel_addresses_are_low(address);
}

/// What a frame holds is what its fields hold.
pub proof fn lemma_frame_shows_its_fields(frame: Callframe)
    ensures
        frame@.address == frame.address,
        frame@.code_address == frame.code_address,
        frame@.caller == frame.caller,
        frame@.exception_handler == frame.exception_handler,
        frame@.context_u128 == frame.context_u128,
        frame@.is_static == frame.is_static,
        frame@.is_kernel == frame.is_kernel,
        frame@.stack_slot == frame.stack.read.value,
        frame@.sp == frame.sp,
        frame@.gas == frame.gas,
        frame@.near_calls == frame.near_calls@,
        frame@.pc == frame.pc,
        frame@.program == frame.program,
        frame@.heap == frame.heap,
        frame@.aux_heap == frame.aux_heap,
        frame@.heap_size == frame.heap_size,
        frame@.aux_heap_size == frame.aux_heap_size,
        frame@.calldata_heap == frame.calldata_heap,
        frame@.heaps_i_am_keeping_alive == frame.heaps_i_am_keeping_alive@,
        frame@.world_before_this_frame == frame.world_before_this_frame,
{
}

/// What a machine holds is what its fields hold.
pub proof fn lemma_machine_shows_its_fields(machine: VirtualMachine)
    ensures
        machine@.world_diff == machine.world_diff,
        machine@.settings == machine.settings,
        machine@.snapshot == machine.snapshot,
        machine@.state.registers == machine.state.registers,
        machine@.state.register_pointer_flags == machine.state.register_pointer_flags,
        machine@.state.flags == machine.state.flags,
        machine@.state.current_frame == machine.state.current_frame@,
        machine@.state.previous_frames.len() == machine.state.previous_frames@.len(),
        forall|i: int|
            0 <= i < machine.state.previous_frames@.len() ==> (
            #[trigger] machine@.state.previous_frames[i]) == machine.state.previous_frames@[i]@,
        machine@.state.heaps == machine.state.heaps@,
        machine@.state.transaction_number == machine.state.transaction_number,
        machine@.state.context_u128 == machine.state.context_u128,
        machine@.state.next_base_page == machine.state.next_base_page,
{
}

/// A frame to lie unused is zero in every field.
pub proof fn lemma_dummy_frame_is_zero(frame: Callframe)
    requires
        call_ensures(Callframe::dummy, (), frame),
    ensures
        frame.address.bytes@ == zero_bytes(20),
        frame.code_address.bytes@ == zero_bytes(20),
        frame.caller.bytes@ == zero_bytes(20),
        frame.exception_handler == 0,
        frame.context_u128 == 0,
        !frame.is_static,
        !frame.is_kernel,
        frame.stack.read.value.0@ == 0,
        !frame.stack.read.value.1,
        frame.sp == 0,
        frame.gas == 0,
        frame.near_calls@.len() == 0,
        frame.pc == 0,
        frame.program.raw_first_instruction == 0,
        frame.program.code_word@ == 0,
        frame.heap.page == 0,
        frame.aux_heap.page == 0,
        frame.heap_size == 0,
        frame.aux_heap_size == 0,
        frame.calldata_heap.page == 0,
        frame.heaps_i_am_keeping_alive@.len() == 0,
        nothing_happened(frame.world_before_this_frame),
{
    lemma_frame_shows_its_fields(frame);
    assert(frame@ == dummy_frame());
    assert(zero_address().bytes@ =~= zero_bytes(20));
}

/// Whether every history is empty and the pubdata counter is zero.
pub open spec fn nothing_happened(snapshot: Snapshot) -> bool {
    &&& snapshot.storage_changes == 0
    &&& snapshot.paid_changes == 0
    &&& snapshot.events == 0
    &&& snapshot.l2_to_l1_logs == 0
    &&& snapshot.transient_storage_changes == 0
    &&& snapshot.storage_logs == 0
    &&& snapshot.rollback_storage_logs == 0
    &&& snapshot.pubdata == 0
}

/// A program starts with the word it was made from.
pub proof fn lemma_program_starts_with_its_word(raw_first_instruction: u64, program: Program)
    requires
        call_ensures(Program::with_raw_first_instruction, (raw_first_instruction,), program),
    ensures
        program.raw_first_instruction == raw_first_instruction,
        program.code_word@ == 0,
{
}

} // verus!
