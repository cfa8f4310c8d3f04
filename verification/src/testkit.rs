//! Explicit construction of a machine that is about to execute one instruction.
//!
//! Every part of the resulting state that a comparison looks at is set by the
//! caller. What the caller does not set is empty: the heaps, the stack and the
//! effects on the world.
use vstd::prelude::*;

use crate::heap::{
    empty_heap, lemma_heaps_show_their_fields, HeapId, Heaps, HeapsView, FIRST_HEAP_PAGE,
};
use crate::machine::{
    dummy_frame, is_kernel, kernel_address, lemma_frame_shows_its_fields,
    lemma_machine_shows_its_fields, no_effects, nothing_happened, program_of, says_far_call, Callframe,
    CallframeView, Flags, Program, Settings, Snapshot, StackPool, State, StateView, VirtualMachine,
    VirtualMachineView, WorldDiff,
};
use crate::numeric::{zero_address, zero_bytes, H160, U256};
use crate::opcode::{
    condition_bits, decode, dst0_bits, dst1_bits, encode_as_integer, far_call_shard_flag_idx,
    far_call_static_flag_idx, imm_0_bits, lemma_word_is_sum_of_fields,
    lemma_word_says_one_instruction, opcode_table_entry, opcode_table_index, src0_bits, src1_bits,
    table_bits, uma_increment_flag_idx, unused_bits, word_says, Condition, DecodedOpcode, FarCallOpcode, Instruction, InstructionView,
    Opcode, OpcodeVariant, Operand, UMAOpcode, FAR_CALL_FAMILY, UMA_FAMILY,
};

verus! {

/// Initial state of the current call frame for a single-instruction test.
///
/// The frame's heap and aux heap follow from `base_page`, at the same offsets as the
/// pages of any other frame.
#[derive(Clone, Copy, Debug, PartialEq, Eq)]
pub struct CallframeSetup {
    pub address: H160,
    pub code_address: H160,
    pub caller: H160,
    pub gas: u32,
    pub exception_handler: u16,
    pub context_u128: u128,
    pub is_static: bool,
    /// 64-bit raw opcode word, see [`encode_far_call`] and [`encode_uma`].
    pub raw_instruction: u64,
    /// `heap_size` and `aux_heap_size` of the current frame before the instruction
    /// runs.
    pub heap_size: u32,
    pub aux_heap_size: u32,
    pub sp: u16,
    /// Base page for this frame's heap pages: the heap is at `base_page + 2`, the aux
    /// heap at `base_page + 3`. Frames have base pages from 1 on, with room for `+3`.
    pub base_page: u32,
    pub calldata_heap: HeapId,
}

/// Initial machine state for a single-instruction test.
#[derive(Clone, Copy, Debug, PartialEq, Eq)]
pub struct SingleInstructionTestSetup {
    pub current_frame: CallframeSetup,
    pub registers: [U256; 16],
    /// Bit `i` set means register `i` holds a fat pointer.
    pub register_pointer_flags: u16,
    pub lt_of_flag: bool,
    pub eq_flag: bool,
    pub gt_flag: bool,
    pub transaction_number: u16,
    pub context_u128: u128,
    pub next_base_page: u32,
}

impl CallframeSetup {
    /// Whether the frame's last page has a number.
    pub open spec fn pages_fit(&self) -> bool {
        self.base_page + 3 <= u32::MAX
    }
}

/// The frame that `setup` describes, running `program`, with the world as in
/// `world_before_this_frame`.
pub open spec fn frame_of(
    setup: CallframeSetup,
    program: Program,
    world_before_this_frame: Snapshot,
) -> CallframeView {
    CallframeView {
        address: setup.address,
        code_address: setup.code_address,
        caller: setup.caller,
        exception_handler: setup.exception_handler,
        context_u128: setup.context_u128,
        is_static: setup.is_static,
        is_kernel: kernel_address(setup.address),
        stack_slot: (U256 { w0: 0, w1: 0, w2: 0, w3: 0 }, false),
        sp: setup.sp,
        gas: setup.gas,
        near_calls: Seq::empty(),
        pc: 0,
        program,
        heap: HeapId { page: (setup.base_page + 2) as u32 },
        aux_heap: HeapId { page: (setup.base_page + 3) as u32 },
        heap_size: setup.heap_size,
        aux_heap_size: setup.aux_heap_size,
        calldata_heap: setup.calldata_heap,
        heaps_i_am_keeping_alive: Seq::empty(),
        world_before_this_frame,
    }
}

/// The state with the given parts, `current_frame` on top of one dummy frame, and
/// empty heaps.
pub open spec fn state_of(
    current_frame: CallframeView,
    registers: [U256; 16],
    register_pointer_flags: u16,
    flags: Flags,
    transaction_number: u16,
    context_u128: u128,
    next_base_page: u32,
) -> StateView {
    StateView {
        registers,
        register_pointer_flags,
        flags,
        current_frame,
        previous_frames: seq![dummy_frame()],
        heaps: HeapsView { heap_id: HeapId { page: FIRST_HEAP_PAGE }, heap: empty_heap() },
        transaction_number,
        context_u128,
        next_base_page,
    }
}

/// The machine that `setup` describes.
pub open spec fn machine_of(
    setup: SingleInstructionTestSetup,
    settings: Settings,
) -> VirtualMachineView {
    VirtualMachineView {
        world_diff: WorldDiff { extent: no_effects() },
        state: state_of(
            frame_of(
                setup.current_frame,
                program_of(setup.current_frame.raw_instruction),
                no_effects(),
            ),
            setup.registers,
            setup.register_pointer_flags,
            Flags { lt_of: setup.lt_of_flag, eq: setup.eq_flag, gt: setup.gt_flag },
            setup.transaction_number,
            setup.context_u128,
            setup.next_base_page,
        ),
        settings,
        snapshot: None,
    }
}

impl VirtualMachine {
    /// A machine ready to execute the instruction in
    /// `setup.current_frame.raw_instruction`.
    ///
    /// Below the current frame lies one dummy frame: there is always at least one
    /// frame under the active one.
    pub fn for_test_single_instruction(
        setup: SingleInstructionTestSetup,
        settings: Settings,
    ) -> (machine: VirtualMachine)
        requires
            setup.current_frame.pages_fit(),
        ensures
            machine@ == machine_of(setup, settings),
    {
        let SingleInstructionTestSetup {
            current_frame,
            registers,
            register_pointer_flags,
            lt_of_flag,
            eq_flag,
            gt_flag,
            transaction_number,
            context_u128,
            next_base_page,
        } = setup;
        let world_diff = WorldDiff::default();
        let mut stack_pool = StackPool {  };
        let program = Program::with_raw_first_instruction(current_frame.raw_instruction);
        let frame = Callframe::for_test_single_instruction(
            current_frame,
            program,
            &mut stack_pool,
            world_diff.snapshot(),
        );
        let state = State::for_test_single_instruction(
            frame,
            registers,
            register_pointer_flags,
            Flags::new(lt_of_flag, eq_flag, gt_flag),
            transaction_number,
            context_u128,
            next_base_page,
        );
        VirtualMachine { world_diff, state, settings, stack_pool, snapshot: None }
    }
}

impl Callframe {
    /// The frame that `setup` describes, at the first instruction of `program`.
    pub fn for_test_single_instruction(
        setup: CallframeSetup,
        program: Program,
        stack_pool: &mut StackPool,
        world_before_this_frame: Snapshot,
    ) -> (frame: Callframe)
        requires
            setup.pages_fit(),
        ensures
            *final(stack_pool) == *old(stack_pool),
            frame@ == frame_of(setup, program, world_before_this_frame),
            frame.program == program,
            frame.world_before_this_frame == world_before_this_frame,
    {
        Callframe {
            address: setup.address,
            code_address: setup.code_address,
            caller: setup.caller,
            exception_handler: setup.exception_handler,
            context_u128: setup.context_u128,
            is_static: setup.is_static,
            is_kernel: is_kernel(setup.address),
            stack: stack_pool.get(),
            sp: setup.sp,
            gas: setup.gas,
            near_calls: Vec::new(),
            pc: 0,
            program,
            heap: HeapId::from_u32_unchecked(setup.base_page + 2),
            aux_heap: HeapId::from_u32_unchecked(setup.base_page + 3),
            heap_size: setup.heap_size,
            aux_heap_size: setup.aux_heap_size,
            calldata_heap: setup.calldata_heap,
            heaps_i_am_keeping_alive: Vec::new(),
            world_before_this_frame,
        }
    }
}

impl State {
    /// The state with the given parts and `current_frame` on top of one dummy frame.
    pub fn for_test_single_instruction(
        current_frame: Callframe,
        registers: [U256; 16],
        register_pointer_flags: u16,
        flags: Flags,
        transaction_number: u16,
        context_u128: u128,
        next_base_page: u32,
    ) -> (state: State)
        ensures
            state@ == state_of(
                current_frame@,
                registers,
                register_pointer_flags,
                flags,
                transaction_number,
                context_u128,
                next_base_page,
            ),
    {
        let mut previous_frames: Vec<Callframe> = Vec::new();
        previous_frames.push(Callframe::dummy());
        assert(previous_frames@.map_values(|frame: Callframe| frame@) =~= seq![dummy_frame()]);
        State {
            registers,
            register_pointer_flags,
            flags,
            current_frame,
            previous_frames,
            heaps: Heaps::empty(HeapId::first()),
            transaction_number,
            context_u128,
            next_base_page,
        }
    }
}

/// The instruction that [`encode_far_call`] encodes.
pub open spec fn far_call_instruction(
    kind: FarCallOpcode,
    abi_register: u8,
    destination_register: u8,
    exception_handler: u16,
    is_static: bool,
    is_shard: bool,
    condition: Condition,
) -> InstructionView {
    InstructionView {
        opcode: Opcode::FarCall(kind),
        src0_addressing: 0,
        dst0_addressing: 0,
        flags: (is_static, is_shard),
        condition,
        src0_reg_idx: abi_register,
        src1_reg_idx: destination_register,
        dst0_reg_idx: 0,
        dst1_reg_idx: 0,
        imm_0: exception_handler,
        imm_1: 0,
    }
}

/// The instruction that [`encode_uma`] encodes.
pub open spec fn uma_instruction(
    kind: UMAOpcode,
    src0_reg_idx: u8,
    src1_reg_idx: u8,
    dst0_reg_idx: u8,
    dst1_reg_idx: u8,
    increment: bool,
    condition: Condition,
) -> InstructionView {
    InstructionView {
        opcode: Opcode::UMA(kind),
        src0_addressing: 0,
        dst0_addressing: 0,
        flags: (increment, false),
        condition,
        src0_reg_idx,
        src1_reg_idx,
        dst0_reg_idx,
        dst1_reg_idx,
        imm_0: 0,
        imm_1: 0,
    }
}

/// Encodes a far call.
///
/// `abi_register` holds the call's arguments and `destination_register` the callee;
/// `exception_handler` is where the caller goes on when the callee fails.
#[must_use]
pub fn encode_far_call(
    kind: FarCallOpcode,
    abi_register: u8,
    destination_register: u8,
    exception_handler: u16,
    is_static: bool,
    is_shard: bool,
    condition: Condition,
) -> (word: u64)
    requires
        abi_register < 16,
        destination_register < 16,
    ensures
        word_says(
            word,
            far_call_instruction(
                kind,
                abi_register,
                destination_register,
                exception_handler,
                is_static,
                is_shard,
                condition,
            ),
        ),
        table_bits(word) == opcode_table_index(
            FAR_CALL_FAMILY as int,
            kind.index(),
            false,
            false,
            is_static,
            is_shard,
        ),
        unused_bits(word) == 0,
{
    let mut flags: [bool; 2] = [false; 2];
    flags[far_call_static_flag_idx()] = is_static;
    flags[far_call_shard_flag_idx()] = is_shard;
    let opcode = DecodedOpcode {
        variant: OpcodeVariant {
            opcode: Opcode::FarCall(kind),
            src0_operand_type: Operand::RegOnly,
            dst0_operand_type: Operand::RegOnly,
            flags,
        },
        condition,
        src0_reg_idx: abi_register,
        src1_reg_idx: destination_register,
        dst0_reg_idx: 0,
        dst1_reg_idx: 0,
        imm_0: exception_handler,
        imm_1: 0,
    };
    encode_as_integer(&opcode)
}

/// Encodes a memory access other than the fat pointer read, whose source operand is
/// declared differently.
///
/// For reads, `dst0_reg_idx` is the destination of the loaded value and
/// `dst1_reg_idx` receives the incremented offset (when `increment` is set). For
/// writes, `src1_reg_idx` is the value to write and `dst0_reg_idx` receives the
/// incremented offset (when `increment` is set); writes have no second destination.
#[must_use]
pub fn encode_uma(
    kind: UMAOpcode,
    src0_reg_idx: u8,
    src1_reg_idx: u8,
    dst0_reg_idx: u8,
    dst1_reg_idx: u8,
    increment: bool,
    condition: Condition,
) -> (word: u64)
    requires
        !(kind is FatPointerRead),
        src0_reg_idx < 16,
        src1_reg_idx < 16,
        dst0_reg_idx < 16,
        dst1_reg_idx < 16,
    ensures
        word_says(
            word,
            uma_instruction(
                kind,
                src0_reg_idx,
                src1_reg_idx,
                dst0_reg_idx,
                dst1_reg_idx,
                increment,
                condition,
            ),
        ),
        table_bits(word) == opcode_table_index(
            UMA_FAMILY as int,
            kind.index(),
            true,
            false,
            increment,
            false,
        ),
        unused_bits(word) == 0,
{
    let mut flags: [bool; 2] = [false; 2];
    flags[uma_increment_flag_idx()] = increment;
    let opcode = DecodedOpcode {
        variant: OpcodeVariant {
            opcode: Opcode::UMA(kind),
            src0_operand_type: Operand::RegOrImm,
            dst0_operand_type: Operand::RegOnly,
            flags,
        },
        condition,
        src0_reg_idx,
        src1_reg_idx,
        dst0_reg_idx,
        dst1_reg_idx,
        imm_0: 0,
        imm_1: 0,
    };
    encode_as_integer(&opcode)
}

/// Decoding an encoded far call gives that far call back.
pub proof fn lemma_far_call_round_trip(
    word: u64,
    decoded: Instruction,
    kind: FarCallOpcode,
    abi_register: u8,
    destination_register: u8,
    exception_handler: u16,
    is_static: bool,
    is_shard: bool,
    condition: Condition,
)
    requires
        word_says(
            word,
            far_call_instruction(
                kind,
                abi_register,
                destination_register,
                exception_handler,
                is_static,
                is_shard,
                condition,
            ),
        ),
        word_says(word, decoded@),
    ensures
        decoded@ == far_call_instruction(
            kind,
            abi_register,
            destination_register,
            exception_handler,
            is_static,
            is_shard,
            condition,
        ),
{
    lemma_word_says_one_instruction(
        word,
        decoded@,
        far_call_instruction(
            kind,
            abi_register,
            destination_register,
            exception_handler,
            is_static,
            is_shard,
            condition,
        ),
    );
}

/// Decoding an encoded memory access gives that memory access back.
pub proof fn lemma_uma_round_trip(
    word: u64,
    decoded: Instruction,
    kind: UMAOpcode,
    src0_reg_idx: u8,
    src1_reg_idx: u8,
    dst0_reg_idx: u8,
    dst1_reg_idx: u8,
    increment: bool,
    condition: Condition,
)
    requires
        word_says(
            word,
            uma_instruction(
                kind,
                src0_reg_idx,
                src1_reg_idx,
                dst0_reg_idx,
                dst1_reg_idx,
                increment,
                condition,
            ),
        ),
        word_says(word, decoded@),
    ensures
        decoded@ == uma_instruction(
            kind,
            src0_reg_idx,
            src1_reg_idx,
            dst0_reg_idx,
            dst1_reg_idx,
            increment,
            condition,
        ),
{
    lemma_word_says_one_instruction(
        word,
        decoded@,
        uma_instruction(
            kind,
            src0_reg_idx,
            src1_reg_idx,
            dst0_reg_idx,
            dst1_reg_idx,
            increment,
            condition,
        ),
    );
}

/// Every field of the setup shows in the machine: equal machines come from equal
/// setups and settings.
pub proof fn lemma_machine_determines_setup(
    a: SingleInstructionTestSetup,
    a_settings: Settings,
    b: SingleInstructionTestSetup,
    b_settings: Settings,
)
    requires
        a.current_frame.pages_fit(),
        b.current_frame.pages_fit(),
        machine_of(a, a_settings) == machine_of(b, b_settings),
    ensures
        a == b,
        a_settings == b_settings,
{
    let a_state = machine_of(a, a_settings).state;
    let b_state = machine_of(b, b_settings).state;
    assert(a_state.current_frame == b_state.current_frame);
    assert(a_state.flags == b_state.flags);
    assert(a.current_frame == b.current_frame);
}

/// A machine set up with an encoded far call is about to execute a far call.
pub proof fn lemma_far_call_setup_runs_far_call(
    setup: SingleInstructionTestSetup,
    settings: Settings,
    kind: FarCallOpcode,
    abi_register: u8,
    destination_register: u8,
    exception_handler: u16,
    is_static: bool,
    is_shard: bool,
    condition: Condition,
)
    requires
        word_says(
            setup.current_frame.raw_instruction,
            far_call_instruction(
                kind,
                abi_register,
                destination_register,
                exception_handler,
                is_static,
                is_shard,
                condition,
            ),
        ),
    ensures
        says_far_call(
            machine_of(setup, settings).state.current_frame.program.raw_first_instruction,
        ),
{
}

/// A machine set up with an encoded memory access is not about to execute a far call.
pub proof fn lemma_uma_setup_runs_no_far_call(
    setup: SingleInstructionTestSetup,
    settings: Settings,
    kind: UMAOpcode,
    src0_reg_idx: u8,
    src1_reg_idx: u8,
    dst0_reg_idx: u8,
    dst1_reg_idx: u8,
    increment: bool,
    condition: Condition,
)
    requires
        word_says(
            setup.current_frame.raw_instruction,
            uma_instruction(
                kind,
                src0_reg_idx,
                src1_reg_idx,
                dst0_reg_idx,
                dst1_reg_idx,
                increment,
                condition,
            ),
        ),
    ensures
        !says_far_call(
            machine_of(setup, settings).state.current_frame.program.raw_first_instruction,
        ),
{
}

/// Each part of a far call stands in its place in the word, nothing else does, and the
/// table holds at the word's index the far call of that kind with these flags.
pub proof fn lemma_far_call_word(
    kind: FarCallOpcode,
    abi_register: u8,
    destination_register: u8,
    exception_handler: u16,
    is_static: bool,
    is_shard: bool,
    condition: Condition,
    word: u64,
)
    requires
        call_ensures(
            encode_far_call,
            (
                kind,
                abi_register,
                destination_register,
                exception_handler,
                is_static,
                is_shard,
                condition,
            ),
            word,
        ),
    ensures
        src0_bits(word) == abi_register,
        src1_bits(word) == destination_register,
        imm_0_bits(word) == exception_handler,
        word == word as int % 0x800 + 0x2000 * condition.index() + 0x1_0000 * abi_register
            + 0x10_0000 * destination_register + 0x1_0000_0000 * exception_handler,
        opcode_table_entry(word as int % 0x800) == (
            13int,
            kind.index(),
            0int,
            0int,
            is_static,
            is_shard,
        ),
{
    lemma_word_is_sum_of_fields(word);
}

/// Far calls share a word only if they agree in everything.
pub proof fn lemma_far_call_words_differ(
    a: (FarCallOpcode, u8, u8, u16, bool, bool, Condition),
    a_word: u64,
    b: (FarCallOpcode, u8, u8, u16, bool, bool, Condition),
    b_word: u64,
)
    requires
        call_ensures(encode_far_call, a, a_word),
        call_ensures(encode_far_call, b, b_word),
    ensures
        a_word == b_word <==> a == b,
{
    lemma_far_call_word(a.0, a.1, a.2, a.3, a.4, a.5, a.6, a_word);
    lemma_far_call_word(b.0, b.1, b.2, b.3, b.4, b.5, b.6, b_word);
    if a_word == b_word {
        assert(condition_bits(a_word) == a.6.index());
        assert(condition_bits(b_word) == b.6.index());
        assert(a.6 == b.6);
        assert(a.0 == b.0);
    }
}

/// Decoding an encoded far call gives back each argument.
pub proof fn lemma_decoded_far_call(
    kind: FarCallOpcode,
    abi_register: u8,
    destination_register: u8,
    exception_handler: u16,
    is_static: bool,
    is_shard: bool,
    condition: Condition,
    word: u64,
    decoded: Instruction,
)
    requires
        call_ensures(
            encode_far_call,
            (
                kind,
                abi_register,
                destination_register,
                exception_handler,
                is_static,
                is_shard,
                condition,
            ),
            word,
        ),
        call_ensures(decode, (word,), decoded),
    ensures
        decoded.opcode == Opcode::FarCall(kind),
        decoded.flags@ == seq![is_static, is_shard],
        decoded.condition == condition,
        decoded.src0_reg_idx == abi_register,
        decoded.src1_reg_idx == destination_register,
        decoded.dst0_reg_idx == 0,
        decoded.dst1_reg_idx == 0,
        decoded.imm_0 == exception_handler,
        decoded.imm_1 == 0,
{
    let encoded = far_call_instruction(
        kind,
        abi_register,
        destination_register,
        exception_handler,
        is_static,
        is_shard,
        condition,
    );
    lemma_word_says_one_instruction(word, encoded, decoded@);
    assert(decoded@.flags == encoded.flags);
    assert(decoded.flags@ =~= seq![is_static, is_shard]);
}

/// Each part of a memory access stands in its place in the word, nothing else does, and
/// the table holds at the word's index the memory access of that kind.
pub proof fn lemma_uma_word(
    kind: UMAOpcode,
    src0_reg_idx: u8,
    src1_reg_idx: u8,
    dst0_reg_idx: u8,
    dst1_reg_idx: u8,
    increment: bool,
    condition: Condition,
    word: u64,
)
    requires
        call_ensures(
            encode_uma,
            (kind, src0_reg_idx, src1_reg_idx, dst0_reg_idx, dst1_reg_idx, increment, condition),
            word,
        ),
    ensures
        src0_bits(word) == src0_reg_idx,
        src1_bits(word) == src1_reg_idx,
        dst0_bits(word) == dst0_reg_idx,
        dst1_bits(word) == dst1_reg_idx,
        word == word as int % 0x800 + 0x2000 * condition.index() + 0x1_0000 * src0_reg_idx
            + 0x10_0000 * src1_reg_idx + 0x100_0000 * dst0_reg_idx + 0x1000_0000 * dst1_reg_idx,
        opcode_table_entry(word as int % 0x800) == (
            15int,
            kind.index(),
            0int,
            0int,
            increment,
            false,
        ),
{
    lemma_word_is_sum_of_fields(word);
}

/// Memory accesses share a word only if they agree in everything.
pub proof fn lemma_uma_words_differ(
    a: (UMAOpcode, u8, u8, u8, u8, bool, Condition),
    a_word: u64,
    b: (UMAOpcode, u8, u8, u8, u8, bool, Condition),
    b_word: u64,
)
    requires
        call_ensures(encode_uma, a, a_word),
        call_ensures(encode_uma, b, b_word),
    ensures
        a_word == b_word <==> a == b,
{
    lemma_uma_word(a.0, a.1, a.2, a.3, a.4, a.5, a.6, a_word);
    lemma_uma_word(b.0, b.1, b.2, b.3, b.4, b.5, b.6, b_word);
    if a_word == b_word {
        assert(condition_bits(a_word) == a.6.index());
        assert(condition_bits(b_word) == b.6.index());
        assert(a.6 == b.6);
        assert(a.0 == b.0);
    }
}

/// Decoding an encoded memory access gives back each argument.
pub proof fn lemma_decoded_uma(
    kind: UMAOpcode,
    src0_reg_idx: u8,
    src1_reg_idx: u8,
    dst0_reg_idx: u8,
    dst1_reg_idx: u8,
    increment: bool,
    condition: Condition,
    word: u64,
    decoded: Instruction,
)
    requires
        call_ensures(
            encode_uma,
            (kind, src0_reg_idx, src1_reg_idx, dst0_reg_idx, dst1_reg_idx, increment, condition),
            word,
        ),
        call_ensures(decode, (word,), decoded),
    ensures
        decoded.opcode == Opcode::UMA(kind),
        decoded.flags@ == seq![increment, false],
        decoded.condition == condition,
        decoded.src0_reg_idx == src0_reg_idx,
        decoded.src1_reg_idx == src1_reg_idx,
        decoded.dst0_reg_idx == dst0_reg_idx,
        decoded.dst1_reg_idx == dst1_reg_idx,
        decoded.imm_0 == 0,
        decoded.imm_1 == 0,
{
    let encoded = uma_instruction(
        kind,
        src0_reg_idx,
        src1_reg_idx,
        dst0_reg_idx,
        dst1_reg_idx,
        increment,
        condition,
    );
    lemma_word_says_one_instruction(word, encoded, decoded@);
    assert(decoded@.flags == encoded.flags);
    assert(decoded.flags@ =~= seq![increment, false]);
}

/// The current frame of the machine, field by field: what the setup gives, the two heap
/// pages next to each other above the base page, and nothing else.
pub proof fn lemma_machine_frame_shows_setup(
    setup: SingleInstructionTestSetup,
    settings: Settings,
    machine: VirtualMachine,
)
    requires
        setup.current_frame.base_page <= 0xffff_fffc,
        call_ensures(VirtualMachine::for_test_single_instruction, (setup, settings), machine),
    ensures
        ({
            let given = setup.current_frame;
            let frame = machine.state.current_frame;
            &&& frame.address == given.address
            &&& frame.code_address == given.code_address
            &&& frame.caller == given.caller
            &&& frame.exception_handler == given.exception_handler
            &&& frame.context_u128 == given.context_u128
            &&& frame.is_static == given.is_static
            &&& frame.is_kernel <==> (forall|i: int| 0 <= i < 18 ==> given.address.bytes@[i] == 0)
            &&& frame.stack.read.value.0@ == 0
            &&& !frame.stack.read.value.1
            &&& frame.sp == given.sp
            &&& frame.gas == given.gas
            &&& frame.near_calls@.len() == 0
            &&& frame.pc == 0
            &&& frame.program.raw_first_instruction == given.raw_instruction
            &&& frame.program.code_word@ == 0
            &&& frame.heap.page == given.base_page + 2
            &&& frame.aux_heap.page == given.base_page + 3
            &&& frame.heap_size == given.heap_size
            &&& frame.aux_heap_size == given.aux_heap_size
            &&& frame.calldata_heap == given.calldata_heap
            &&& frame.heaps_i_am_keeping_alive@.len() == 0
            &&& nothing_happened(frame.world_before_this_frame)
        }),
{
    lemma_machine_shows_its_fields(machine);
    lemma_frame_shows_its_fields(machine.state.current_frame);
    assert(machine@ == machine_of(setup, settings));
}

/// The rest of the machine, field by field: registers, comparison flags and counters as
/// the setup gives them, the settings, empty heaps, and no effects.
pub proof fn lemma_machine_shows_setup(
    setup: SingleInstructionTestSetup,
    settings: Settings,
    machine: VirtualMachine,
)
    requires
        call_ensures(VirtualMachine::for_test_single_instruction, (setup, settings), machine),
    ensures
        forall|i: int|
            0 <= i < 16 ==> #[trigger] machine.state.registers@[i] == setup.registers@[i],
        machine.state.register_pointer_flags == setup.register_pointer_flags,
        machine.state.flags.lt_of == setup.lt_of_flag,
        machine.state.flags.eq == setup.eq_flag,
        machine.state.flags.gt == setup.gt_flag,
        machine.state.transaction_number == setup.transaction_number,
        machine.state.context_u128 == setup.context_u128,
        machine.state.next_base_page == setup.next_base_page,
        machine.settings == settings,
        machine.snapshot is None,
        nothing_happened(machine.world_diff.extent),
        machine.state.heaps.heap_id.page == 10,
        machine.state.heaps.read.value.write is None,
        forall|i: int|
            0 <= i < 32 ==> #[trigger] machine.state.heaps.read.value.read.value@[i] == 0,
{
    lemma_machine_shows_its_fields(machine);
    lemma_heaps_show_their_fields(machine.state.heaps);
    assert(machine@ == machine_of(setup, settings));
    assert forall|i: int| 0 <= i < 32 implies #[trigger]
        machine.state.heaps.read.value.read.value@[i] == 0 by {
        assert(machine.state.heaps@.heap.word[i] == 0);
    }
}

/// Below the current frame lies exactly one frame, and it is zero throughout.
pub proof fn lemma_machine_has_one_frame_below(
    setup: SingleInstructionTestSetup,
    settings: Settings,
    machine: VirtualMachine,
)
    requires
        call_ensures(VirtualMachine::for_test_single_instruction, (setup, settings), machine),
    ensures
        machine.state.previous_frames@.len() == 1,
        ({
            let frame = machine.state.previous_frames@[0];
            &&& frame.address.bytes@ == zero_bytes(20)
            &&& frame.code_address.bytes@ == zero_bytes(20)
            &&& frame.caller.bytes@ == zero_bytes(20)
            &&& frame.exception_handler == 0
            &&& frame.context_u128 == 0
            &&& !frame.is_static
            &&& !frame.is_kernel
            &&& frame.stack.read.value.0@ == 0
            &&& !frame.stack.read.value.1
            &&& frame.sp == 0
            &&& frame.gas == 0
            &&& frame.near_calls@.len() == 0
            &&& frame.pc == 0
            &&& frame.program.raw_first_instruction == 0
            &&& frame.program.code_word@ == 0
            &&& frame.heap.page == 0
            &&& frame.aux_heap.page == 0
            &&& frame.heap_size == 0
            &&& frame.aux_heap_size == 0
            &&& frame.calldata_heap.page == 0
            &&& frame.heaps_i_am_keeping_alive@.len() == 0
            &&& nothing_happened(frame.world_before_this_frame)
        }),
{
    lemma_machine_shows_its_fields(machine);
    assert(machine@ == machine_of(setup, settings));
    assert(machine@.state.previous_frames[0] == dummy_frame());
    lemma_frame_shows_its_fields(machine.state.previous_frames@[0]);
    assert(zero_address().bytes@ =~= zero_bytes(20));
}

/// A state is its parts, on top of one frame, with empty heaps of the first tag.
pub proof fn lemma_state_shows_its_parts(
    current_frame: Callframe,
    registers: [U256; 16],
    register_pointer_flags: u16,
    flags: Flags,
    transaction_number: u16,
    context_u128: u128,
    next_base_page: u32,
    state: State,
)
    requires
        call_ensures(
            State::for_test_single_instruction,
            (
                current_frame,
                registers,
                register_pointer_flags,
                flags,
                transaction_number,
                context_u128,
                next_base_page,
            ),
            state,
        ),
    ensures
        state.registers == registers,
        state.register_pointer_flags == register_pointer_flags,
        state.flags == flags,
        state.current_frame@ == current_frame@,
        state.previous_frames@.len() == 1,
        state.previous_frames@[0]@ == dummy_frame(),
        state.heaps.heap_id.page == 10,
        state.heaps.read.value.write is None,
        state.heaps.read.value.read.value@ == zero_bytes(32),
        state.transaction_number == transaction_number,
        state.context_u128 == context_u128,
        state.next_base_page == next_base_page,
{
    assert(state@.previous_frames == seq![dummy_frame()]);
    assert(state@.previous_frames[0] == state.previous_frames@[0]@);
    assert(state@.heaps == state.heaps@);
}

/// A machine set up with an encoded far call begins a step that counts as one, and a
/// machine set up with an encoded memory access begins one that does not.
pub proof fn lemma_step_of_encoded_instruction(
    setup: SingleInstructionTestSetup,
    settings: Settings,
    machine: VirtualMachine,
    far_call: bool,
    call: (FarCallOpcode, u8, u8, u16, bool, bool, Condition),
    access: (UMAOpcode, u8, u8, u8, u8, bool, Condition),
)
    requires
        call_ensures(VirtualMachine::for_test_single_instruction, (setup, settings), machine),
        call_ensures(VirtualMachine::instruction_is_far_call, (&machine,), far_call),
    ensures
        call_ensures(encode_far_call, call, setup.current_frame.raw_instruction) ==> far_call,
        call_ensures(encode_uma, access, setup.current_frame.raw_instruction) ==> !far_call,
{
    assert(machine@ == machine_of(setup, settings));
}

/// A frame, field by field: what the setup gives, the given program at its first
/// instruction, and the given point to roll back to.
pub proof fn lemma_frame_shows_setup(
    setup: CallframeSetup,
    program: Program,
    world_before_this_frame: Snapshot,
    frame: Callframe,
)
    requires
        setup.base_page <= 0xffff_fffc,
        frame@ == frame_of(setup, program, world_before_this_frame),
    ensures
        frame.address == setup.address,
        frame.code_address == setup.code_address,
        frame.caller == setup.caller,
        frame.exception_handler == setup.exception_handler,
        frame.context_u128 == setup.context_u128,
        frame.is_static == setup.is_static,
        frame.is_kernel <==> (forall|i: int| 0 <= i < 18 ==> setup.address.bytes@[i] == 0),
        frame.stack.read.value.0@ == 0,
        !frame.stack.read.value.1,
        frame.sp == setup.sp,
        frame.gas == setup.gas,
        frame.near_calls@.len() == 0,
        frame.pc == 0,
        frame.program == program,
        frame.heap.page == setup.base_page + 2,
        frame.aux_heap.page == setup.base_page + 3,
        frame.heap_size == setup.heap_size,
        frame.aux_heap_size == setup.aux_heap_size,
        frame.calldata_heap == setup.calldata_heap,
        frame.heaps_i_am_keeping_alive@.len() == 0,
        frame.world_before_this_frame == world_before_this_frame,
{
    lemma_frame_shows_its_fields(frame);
}

} // verus!
