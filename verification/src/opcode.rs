//! Instruction words: what they say, how they are put together and how they are
//! read.
//!
//! A word holds, from the low end, an 11-bit index into the table of all opcode
//! variants, 2 unused bits, the 3-bit condition, four 4-bit register indices and
//! two 16-bit immediates.
use vstd::prelude::*;
use zkevm_opcode_defs as defs;
use zkevm_opcode_defs::decoding::{EncodingModeProduction, VmEncodingMode};

verus! {

/// Position of the far calls among the opcode families.
pub const FAR_CALL_FAMILY: usize = 13;

/// Position of the memory accesses among the opcode families.
pub const UMA_FAMILY: usize = 15;

/// How a far call treats the caller's identity.
#[derive(Clone, Copy, Debug, PartialEq, Eq, Structural)]
pub enum FarCallOpcode {
    Normal,
    Delegate,
    Mimic,
}

/// Unified memory accesses.
#[derive(Clone, Copy, Debug, PartialEq, Eq, Structural)]
pub enum UMAOpcode {
    HeapRead,
    HeapWrite,
    AuxHeapRead,
    AuxHeapWrite,
    FatPointerRead,
    StaticMemoryRead,
    StaticMemoryWrite,
}

/// When an instruction takes effect.
#[derive(Clone, Copy, Debug, PartialEq, Eq, Structural)]
pub enum Condition {
    Always,
    Gt,
    Lt,
    Eq,
    Ge,
    Le,
    Ne,
    GtOrLt,
}

/// An opcode. Families that are neither far calls nor memory accesses appear as
/// their position among the families and the position of the variant in it.
#[derive(Clone, Copy, Debug, PartialEq, Eq, Structural)]
pub enum Opcode {
    FarCall(FarCallOpcode),
    UMA(UMAOpcode),
    Other(usize, usize),
}

/// How an operand that names a register is declared: as a register only, or as a
/// register where an immediate could have stood.
#[derive(Clone, Copy, Debug, PartialEq, Eq, Structural)]
pub enum Operand {
    RegOnly,
    RegOrImm,
}

impl FarCallOpcode {
    /// Position among the far calls.
    pub open spec fn index(self) -> int {
        match self {
            FarCallOpcode::Normal => 0,
            FarCallOpcode::Delegate => 1,
            FarCallOpcode::Mimic => 2,
        }
    }

    fn variant_index(self) -> (index: usize)
        ensures
            index == self.index(),
    {
        match self {
            FarCallOpcode::Normal => 0,
            FarCallOpcode::Delegate => 1,
            FarCallOpcode::Mimic => 2,
        }
    }
}

impl UMAOpcode {
    /// Position among the memory accesses.
    pub open spec fn index(self) -> int {
        match self {
            UMAOpcode::HeapRead => 0,
            UMAOpcode::HeapWrite => 1,
            UMAOpcode::AuxHeapRead => 2,
            UMAOpcode::AuxHeapWrite => 3,
            UMAOpcode::FatPointerRead => 4,
            UMAOpcode::StaticMemoryRead => 5,
            UMAOpcode::StaticMemoryWrite => 6,
        }
    }

    fn variant_index(self) -> (index: usize)
        ensures
            index == self.index(),
    {
        match self {
            UMAOpcode::HeapRead => 0,
            UMAOpcode::HeapWrite => 1,
            UMAOpcode::AuxHeapRead => 2,
            UMAOpcode::AuxHeapWrite => 3,
            UMAOpcode::FatPointerRead => 4,
            UMAOpcode::StaticMemoryRead => 5,
            UMAOpcode::StaticMemoryWrite => 6,
        }
    }
}

impl Condition {
    /// Position among the conditions.
    pub open spec fn index(self) -> int {
        match self {
            Condition::Always => 0,
            Condition::Gt => 1,
            Condition::Lt => 2,
            Condition::Eq => 3,
            Condition::Ge => 4,
            Condition::Le => 5,
            Condition::Ne => 6,
            Condition::GtOrLt => 7,
        }
    }

    fn variant_index(self) -> (index: usize)
        ensures
            index == self.index(),
    {
        match self {
            Condition::Always => 0,
            Condition::Gt => 1,
            Condition::Lt => 2,
            Condition::Eq => 3,
            Condition::Ge => 4,
            Condition::Le => 5,
            Condition::Ne => 6,
            Condition::GtOrLt => 7,
        }
    }

    fn from_variant_index(index: usize) -> (condition: Condition)
        requires
            index < 8,
        ensures
            condition.index() == index,
    {
        match index {
            0 => Condition::Always,
            1 => Condition::Gt,
            2 => Condition::Lt,
            3 => Condition::Eq,
            4 => Condition::Ge,
            5 => Condition::Le,
            6 => Condition::Ne,
            _ => Condition::GtOrLt,
        }
    }
}

impl Opcode {
    /// Position of the opcode's family among the families.
    pub open spec fn family(self) -> int {
        match self {
            Opcode::FarCall(_) => FAR_CALL_FAMILY as int,
            Opcode::UMA(_) => UMA_FAMILY as int,
            Opcode::Other(family, _) => family as int,
        }
    }

    /// Position of the opcode in its family.
    pub open spec fn subvariant(self) -> int {
        match self {
            Opcode::FarCall(kind) => kind.index(),
            Opcode::UMA(kind) => kind.index(),
            Opcode::Other(_, subvariant) => subvariant as int,
        }
    }

    /// Whether the opcode goes by its own name where it has one.
    pub open spec fn canonical(self) -> bool {
        self matches Opcode::Other(family, subvariant) ==> {
            &&& !(family == FAR_CALL_FAMILY && subvariant < 3)
            &&& !(family == UMA_FAMILY && subvariant < 7)
        }
    }

    fn from_indices(family: usize, subvariant: usize) -> (opcode: Opcode)
        ensures
            opcode.canonical(),
            opcode.family() == family,
            opcode.subvariant() == subvariant,
    {
        match (family, subvariant) {
            (FAR_CALL_FAMILY, 0) => Opcode::FarCall(FarCallOpcode::Normal),
            (FAR_CALL_FAMILY, 1) => Opcode::FarCall(FarCallOpcode::Delegate),
            (FAR_CALL_FAMILY, 2) => Opcode::FarCall(FarCallOpcode::Mimic),
            (UMA_FAMILY, 0) => Opcode::UMA(UMAOpcode::HeapRead),
            (UMA_FAMILY, 1) => Opcode::UMA(UMAOpcode::HeapWrite),
            (UMA_FAMILY, 2) => Opcode::UMA(UMAOpcode::AuxHeapRead),
            (UMA_FAMILY, 3) => Opcode::UMA(UMAOpcode::AuxHeapWrite),
            (UMA_FAMILY, 4) => Opcode::UMA(UMAOpcode::FatPointerRead),
            (UMA_FAMILY, 5) => Opcode::UMA(UMAOpcode::StaticMemoryRead),
            (UMA_FAMILY, 6) => Opcode::UMA(UMAOpcode::StaticMemoryWrite),
            _ => Opcode::Other(family, subvariant),
        }
    }
}

/// What an instruction says. An operand's addressing mode is given by its position
/// among the modes; position 0 is the plain register.
pub struct InstructionView {
    pub opcode: Opcode,
    pub src0_addressing: int,
    pub dst0_addressing: int,
    pub flags: (bool, bool),
    pub condition: Condition,
    pub src0_reg_idx: u8,
    pub src1_reg_idx: u8,
    pub dst0_reg_idx: u8,
    pub dst1_reg_idx: u8,
    pub imm_0: u16,
    pub imm_1: u16,
}

/// An opcode together with the addressing modes and flags that the opcode table
/// tells apart.
#[derive(Clone, Copy, Debug, PartialEq, Eq)]
pub struct OpcodeVariant {
    pub opcode: Opcode,
    pub src0_operand_type: Operand,
    pub dst0_operand_type: Operand,
    pub flags: [bool; 2],
}

/// An instruction to be encoded.
#[derive(Clone, Copy, Debug, PartialEq, Eq)]
pub struct DecodedOpcode {
    pub variant: OpcodeVariant,
    pub condition: Condition,
    pub src0_reg_idx: u8,
    pub src1_reg_idx: u8,
    pub dst0_reg_idx: u8,
    pub dst1_reg_idx: u8,
    pub imm_0: u16,
    pub imm_1: u16,
}

/// An instruction that was read from a word.
#[derive(Clone, Copy, Debug, PartialEq, Eq)]
pub struct Instruction {
    pub opcode: Opcode,
    pub src0_addressing: usize,
    pub dst0_addressing: usize,
    pub flags: [bool; 2],
    pub condition: Condition,
    pub src0_reg_idx: u8,
    pub src1_reg_idx: u8,
    pub dst0_reg_idx: u8,
    pub dst1_reg_idx: u8,
    pub imm_0: u16,
    pub imm_1: u16,
}

/// The fields of a word, positions not yet turned into names.
#[derive(Clone, Copy, Debug, PartialEq, Eq)]
pub struct WordFields {
    pub family: usize,
    pub subvariant: usize,
    pub src0_addressing: usize,
    pub dst0_addressing: usize,
    pub flags: [bool; 2],
    pub condition: usize,
    pub src0_reg_idx: u8,
    pub src1_reg_idx: u8,
    pub dst0_reg_idx: u8,
    pub dst1_reg_idx: u8,
    pub imm_0: u16,
    pub imm_1: u16,
}

impl View for DecodedOpcode {
    type V = InstructionView;

    open spec fn view(&self) -> InstructionView {
        InstructionView {
            opcode: self.variant.opcode,
            src0_addressing: 0,
            dst0_addressing: 0,
            flags: (self.variant.flags@[0], self.variant.flags@[1]),
            condition: self.condition,
            src0_reg_idx: self.src0_reg_idx,
            src1_reg_idx: self.src1_reg_idx,
            dst0_reg_idx: self.dst0_reg_idx,
            dst1_reg_idx: self.dst1_reg_idx,
            imm_0: self.imm_0,
            imm_1: self.imm_1,
        }
    }
}

impl View for Instruction {
    type V = InstructionView;

    open spec fn view(&self) -> InstructionView {
        InstructionView {
            opcode: self.opcode,
            src0_addressing: self.src0_addressing as int,
            dst0_addressing: self.dst0_addressing as int,
            flags: (self.flags@[0], self.flags@[1]),
            condition: self.condition,
            src0_reg_idx: self.src0_reg_idx,
            src1_reg_idx: self.src1_reg_idx,
            dst0_reg_idx: self.dst0_reg_idx,
            dst1_reg_idx: self.dst1_reg_idx,
            imm_0: self.imm_0,
            imm_1: self.imm_1,
        }
    }
}

/// The index, in the production table, of the variant with the given family and
/// position in it, whether its first source and its first destination operand could
/// have been immediates, and its two flags.
pub uninterp spec fn opcode_table_index(
    family: int,
    subvariant: int,
    src0_or_imm: bool,
    dst0_or_imm: bool,
    flag_0: bool,
    flag_1: bool,
) -> int;

/// What the production table holds at `index`: the family, the position in it, the
/// addressing modes of the first source and the first destination operand, and the
/// two flags.
pub uninterp spec fn opcode_table_entry(index: int) -> (int, int, int, int, bool, bool);

/// The table index in `word`.
pub open spec fn table_bits(word: u64) -> int {
    word as int % 0x800
}

/// The bits of `word` that mean nothing.
pub open spec fn unused_bits(word: u64) -> int {
    (word as int / 0x800) % 4
}

/// The position of the condition in `word`.
pub open spec fn condition_bits(word: u64) -> int {
    (word as int / 0x2000) % 8
}

/// The first source register in `word`.
pub open spec fn src0_bits(word: u64) -> int {
    (word as int / 0x1_0000) % 16
}

/// The second source register in `word`.
pub open spec fn src1_bits(word: u64) -> int {
    (word as int / 0x10_0000) % 16
}

/// The first destination register in `word`.
pub open spec fn dst0_bits(word: u64) -> int {
    (word as int / 0x100_0000) % 16
}

/// The second destination register in `word`.
pub open spec fn dst1_bits(word: u64) -> int {
    (word as int / 0x1000_0000) % 16
}

/// The first immediate in `word`.
pub open spec fn imm_0_bits(word: u64) -> int {
    (word as int / 0x1_0000_0000) % 0x1_0000
}

/// The second immediate in `word`.
pub open spec fn imm_1_bits(word: u64) -> int {
    word as int / 0x1_0000_0000_0000
}

/// Whether `word` says `instruction`.
pub open spec fn word_says(word: u64, instruction: InstructionView) -> bool {
    &&& instruction.opcode.canonical()
    &&& opcode_table_entry(table_bits(word)) == (
        instruction.opcode.family(),
        instruction.opcode.subvariant(),
        instruction.src0_addressing,
        instruction.dst0_addressing,
        instruction.flags.0,
        instruction.flags.1,
    )
    &&& condition_bits(word) == instruction.condition.index()
    &&& src0_bits(word) == instruction.src0_reg_idx
    &&& src1_bits(word) == instruction.src1_reg_idx
    &&& dst0_bits(word) == instruction.dst0_reg_idx
    &&& dst1_bits(word) == instruction.dst1_reg_idx
    &&& imm_0_bits(word) == instruction.imm_0
    &&& imm_1_bits(word) == instruction.imm_1
}

/// Whether the production table has the variant with the given family, position in
/// it, operand declarations and flags. Among far calls and memory accesses: every far
/// call on plain registers; every memory access but the fat pointer read whose source
/// could have been an immediate; the fat pointer read on plain registers. Memory
/// accesses use the first flag only.
pub open spec fn in_table(
    family: int,
    subvariant: int,
    src0: Operand,
    dst0: Operand,
    flag_0: bool,
    flag_1: bool,
) -> bool {
    ||| {
        &&& family == FAR_CALL_FAMILY
        &&& 0 <= subvariant < 3
        &&& src0 is RegOnly
        &&& dst0 is RegOnly
    }
    ||| {
        &&& family == UMA_FAMILY
        &&& 0 <= subvariant < 7
        &&& (src0 is RegOnly <==> subvariant == UMAOpcode::FatPointerRead.index())
        &&& dst0 is RegOnly
        &&& !flag_1
    }
}

impl DecodedOpcode {
    /// Whether there is a word for the instruction: its variant stands in the table,
    /// and its register indices have four bits.
    pub open spec fn encodable(&self) -> bool {
        &&& !(self.variant.opcode is Other)
        &&& in_table(
            self.variant.opcode.family(),
            self.variant.opcode.subvariant(),
            self.variant.src0_operand_type,
            self.variant.dst0_operand_type,
            self.variant.flags@[0],
            self.variant.flags@[1],
        )
        &&& self.src0_reg_idx < 16
        &&& self.src1_reg_idx < 16
        &&& self.dst0_reg_idx < 16
        &&& self.dst1_reg_idx < 16
    }

    /// The table index of the instruction's variant.
    pub open spec fn table_index(&self) -> int {
        opcode_table_index(
            self.variant.opcode.family(),
            self.variant.opcode.subvariant(),
            self.variant.src0_operand_type is RegOrImm,
            self.variant.dst0_operand_type is RegOrImm,
            self.variant.flags@[0],
            self.variant.flags@[1],
        )
    }
}

/// Calls `EncodingModeProduction::encode_as_integer` of `zkevm_opcode_defs`. Claimed
/// of it: it puts the variant's index in the production table, the condition, the
/// registers and the immediates each in its place, leaves the unused bits zero, and
/// the table holds at that index the very variant that was looked up. The call panics
/// on a variant that the table lacks and, with debug assertions, on a register index
/// beyond four bits.
#[verifier::external_body]
fn encode_fields(
    family: usize,
    subvariant: usize,
    src0: Operand,
    dst0: Operand,
    flags: [bool; 2],
    condition: usize,
    src0_reg_idx: u8,
    src1_reg_idx: u8,
    dst0_reg_idx: u8,
    dst1_reg_idx: u8,
    imm_0: u16,
    imm_1: u16,
) -> (word: u64)
    requires
        in_table(family as int, subvariant as int, src0, dst0, flags@[0], flags@[1]),
        condition < 8,
        src0_reg_idx < 16,
        src1_reg_idx < 16,
        dst0_reg_idx < 16,
        dst1_reg_idx < 16,
    ensures
        table_bits(word) == opcode_table_index(
            family as int,
            subvariant as int,
            src0 is RegOrImm,
            dst0 is RegOrImm,
            flags@[0],
            flags@[1],
        ),
        opcode_table_entry(table_bits(word)) == (
            family as int,
            subvariant as int,
            0int,
            0int,
            flags@[0],
            flags@[1],
        ),
        unused_bits(word) == 0,
        condition_bits(word) == condition,
        src0_bits(word) == src0_reg_idx,
        src1_bits(word) == src1_reg_idx,
        dst0_bits(word) == dst0_reg_idx,
        dst1_bits(word) == dst1_reg_idx,
        imm_0_bits(word) == imm_0,
        imm_1_bits(word) == imm_1,
{
    let opcode = defs::all_opcode_prototypes()[family]
        .materialize_subvariant_from_prototype(subvariant, &defs::DEFAULT_ISA_VERSION);
    let src0_operand_type = match src0 {
        Operand::RegOnly => defs::Operand::RegOnly,
        Operand::RegOrImm => defs::Operand::RegOrImm(defs::RegOrImmFlags::UseRegOnly),
    };
    let dst0_operand_type = match dst0 {
        Operand::RegOnly => defs::Operand::RegOnly,
        Operand::RegOrImm => defs::Operand::RegOrImm(defs::RegOrImmFlags::UseRegOnly),
    };
    let variant = defs::OpcodeVariant { opcode, src0_operand_type, dst0_operand_type, flags };
    let condition = defs::Condition::materialize_variant(condition);
    EncodingModeProduction::encode_as_integer(&defs::DecodedOpcode {
        variant, condition, src0_reg_idx, src1_reg_idx, dst0_reg_idx, dst1_reg_idx, imm_0, imm_1,
    })
}

/// Calls `EncodingModeProduction::parse_preliminary_variant_and_absolute_number` of
/// `zkevm_opcode_defs`, and the accessors of the result that give positions. Claimed
/// of it: it finds the opcode with its addressing modes and flags in the production
/// table, and the other fields in their places. Every word can be parsed.
#[verifier::external_body]
fn parse_fields(word: u64) -> (fields: WordFields)
    ensures
        opcode_table_entry(table_bits(word)) == (
            fields.family as int,
            fields.subvariant as int,
            fields.src0_addressing as int,
            fields.dst0_addressing as int,
            fields.flags@[0],
            fields.flags@[1],
        ),
        fields.condition == condition_bits(word),
        fields.src0_reg_idx == src0_bits(word),
        fields.src1_reg_idx == src1_bits(word),
        fields.dst0_reg_idx == dst0_bits(word),
        fields.dst1_reg_idx == dst1_bits(word),
        fields.imm_0 == imm_0_bits(word),
        fields.imm_1 == imm_1_bits(word),
{
    let parsed = EncodingModeProduction::parse_preliminary_variant_and_absolute_number(word).0;
    WordFields {
        family: parsed.variant.opcode.variant_idx(),
        subvariant: parsed.variant.opcode.materialize_subvariant_idx(),
        src0_addressing: parsed.variant.src0_operand_type.variant_idx(),
        dst0_addressing: parsed.variant.dst0_operand_type.variant_idx(),
        flags: parsed.variant.flags,
        condition: parsed.condition.variant_index(),
        src0_reg_idx: parsed.src0_reg_idx,
        src1_reg_idx: parsed.src1_reg_idx,
        dst0_reg_idx: parsed.dst0_reg_idx,
        dst1_reg_idx: parsed.dst1_reg_idx,
        imm_0: parsed.imm_0,
        imm_1: parsed.imm_1,
    }
}

/// The constant `FAR_CALL_STATIC_FLAG_IDX` of `zkevm_opcode_defs`: the position of the
/// flag that makes a far call static. Claimed of it: it is 0.
#[verifier::external_body]
pub(crate) fn far_call_static_flag_idx() -> (index: usize)
    ensures
        index == 0,
{
    zkevm_opcode_defs::FAR_CALL_STATIC_FLAG_IDX
}

/// The constant `FAR_CALL_SHARD_FLAG_IDX` of `zkevm_opcode_defs`: the position of the
/// flag that sends a far call to another shard. Claimed of it: it is 1.
#[verifier::external_body]
pub(crate) fn far_call_shard_flag_idx() -> (index: usize)
    ensures
        index == 1,
{
    zkevm_opcode_defs::FAR_CALL_SHARD_FLAG_IDX
}

/// The constant `UMA_INCREMENT_FLAG_IDX` of `zkevm_opcode_defs`: the position of the
/// flag that makes a memory access advance its offset. Claimed of it: it is 0.
#[verifier::external_body]
pub(crate) fn uma_increment_flag_idx() -> (index: usize)
    ensures
        index == 0,
{
    zkevm_opcode_defs::UMA_INCREMENT_FLAG_IDX
}

/// The word for `opcode`.
pub fn encode_as_integer(opcode: &DecodedOpcode) -> (word: u64)
    requires
        opcode.encodable(),
    ensures
        word_says(word, opcode@),
        table_bits(word) == opcode.table_index(),
        unused_bits(word) == 0,
{
    let (family, subvariant) = match opcode.variant.opcode {
        Opcode::FarCall(kind) => (FAR_CALL_FAMILY, kind.variant_index()),
        Opcode::UMA(kind) => (UMA_FAMILY, kind.variant_index()),
        Opcode::Other(family, subvariant) => (family, subvariant),
    };
    encode_fields(
        family,
        subvariant,
        opcode.variant.src0_operand_type,
        opcode.variant.dst0_operand_type,
        opcode.variant.flags,
        opcode.condition.variant_index(),
        opcode.src0_reg_idx,
        opcode.src1_reg_idx,
        opcode.dst0_reg_idx,
        opcode.dst1_reg_idx,
        opcode.imm_0,
        opcode.imm_1,
    )
}

impl Instruction {
    /// The instruction with the given fields: positions turned into names.
    pub fn from_fields(fields: WordFields) -> (instruction: Instruction)
        requires
            fields.condition < 8,
        ensures
            instruction.opcode.canonical(),
            instruction.opcode.family() == fields.family,
            instruction.opcode.subvariant() == fields.subvariant,
            instruction.condition.index() == fields.condition,
            instruction@ == (InstructionView {
                opcode: instruction.opcode,
                src0_addressing: fields.src0_addressing as int,
                dst0_addressing: fields.dst0_addressing as int,
                flags: (fields.flags@[0], fields.flags@[1]),
                condition: instruction.condition,
                src0_reg_idx: fields.src0_reg_idx,
                src1_reg_idx: fields.src1_reg_idx,
                dst0_reg_idx: fields.dst0_reg_idx,
                dst1_reg_idx: fields.dst1_reg_idx,
                imm_0: fields.imm_0,
                imm_1: fields.imm_1,
            }),
    {
        Instruction {
            opcode: Opcode::from_indices(fields.family, fields.subvariant),
            src0_addressing: fields.src0_addressing,
            dst0_addressing: fields.dst0_addressing,
            flags: fields.flags,
            condition: Condition::from_variant_index(fields.condition),
            src0_reg_idx: fields.src0_reg_idx,
            src1_reg_idx: fields.src1_reg_idx,
            dst0_reg_idx: fields.dst0_reg_idx,
            dst1_reg_idx: fields.dst1_reg_idx,
            imm_0: fields.imm_0,
            imm_1: fields.imm_1,
        }
    }

    /// Whether the instruction is a far call.
    pub fn is_far_call(&self) -> (far_call: bool)
        ensures
            far_call == (self.opcode is FarCall),
    {
        match self.opcode {
            Opcode::FarCall(_) => true,
            _ => false,
        }
    }
}

/// The instruction that `word` says.
pub fn decode(word: u64) -> (instruction: Instruction)
    ensures
        word_says(word, instruction@),
{
    Instruction::from_fields(parse_fields(word))
}

/// A word says one instruction only. So reading back an encoded instruction gives
/// that instruction, and two different instructions never share a word.
pub proof fn lemma_word_says_one_instruction(word: u64, a: InstructionView, b: InstructionView)
    requires
        word_says(word, a),
        word_says(word, b),
    ensures
        a == b,
{
    assert(a.opcode == b.opcode);
    assert(a.condition == b.condition);
}

/// The fields of a word are all there is to it.
pub proof fn lemma_fields_determine_word(a: u64, b: u64)
    requires
        table_bits(a) == table_bits(b),
        unused_bits(a) == unused_bits(b),
        condition_bits(a) == condition_bits(b),
        src0_bits(a) == src0_bits(b),
        src1_bits(a) == src1_bits(b),
        dst0_bits(a) == dst0_bits(b),
        dst1_bits(a) == dst1_bits(b),
        imm_0_bits(a) == imm_0_bits(b),
        imm_1_bits(a) == imm_1_bits(b),
    ensures
        a == b,
{
    lemma_word_is_sum_of_fields(a);
    lemma_word_is_sum_of_fields(b);
}

/// A word is the sum of its fields, each moved to its place.
pub proof fn lemma_word_is_sum_of_fields(word: u64)
    ensures
        word == table_bits(word) + 0x800 * unused_bits(word) + 0x2000 * condition_bits(word)
            + 0x1_0000 * src0_bits(word) + 0x10_0000 * src1_bits(word) + 0x100_0000 * dst0_bits(
            word,
        ) + 0x1000_0000 * dst1_bits(word) + 0x1_0000_0000 * imm_0_bits(word)
            + 0x1_0000_0000_0000 * imm_1_bits(word),
{
    let w = word as int;
    assert((w / 0x800) / 4 == w / 0x2000);
    assert((w / 0x2000) / 8 == w / 0x1_0000);
    assert((w / 0x1_0000) / 16 == w / 0x10_0000);
    assert((w / 0x10_0000) / 16 == w / 0x100_0000);
    assert((w / 0x100_0000) / 16 == w / 0x1000_0000);
    assert((w / 0x1000_0000) / 16 == w / 0x1_0000_0000);
    assert((w / 0x1_0000_0000) / 0x1_0000 == w / 0x1_0000_0000_0000);
}

/// The positions that have names, and the names they have: far calls are the first
/// three of family 13, memory accesses the first seven of family 15, and everything else
/// goes by its position.
pub proof fn lemma_opcode_names(opcode: Opcode)
    requires
        opcode.canonical(),
    ensures
        opcode is FarCall <==> opcode.family() == 13 && 0 <= opcode.subvariant() < 3,
        opcode is UMA <==> opcode.family() == 15 && 0 <= opcode.subvariant() < 7,
        opcode matches Opcode::Other(family, subvariant) ==> {
            &&& opcode.family() == family
            &&& opcode.subvariant() == subvariant
        },
{
}

/// Decoding finds every field of a word in its place, and the opcode with its
/// addressing modes and flags in the table.
pub proof fn lemma_decoded_fields(word: u64, instruction: Instruction)
    requires
        call_ensures(decode, (word,), instruction),
    ensures
        instruction.condition.index() == (word / 0x2000) % 8,
        instruction.src0_reg_idx == (word / 0x1_0000) % 16,
        instruction.src1_reg_idx == (word / 0x10_0000) % 16,
        instruction.dst0_reg_idx == (word / 0x100_0000) % 16,
        instruction.dst1_reg_idx == (word / 0x1000_0000) % 16,
        instruction.imm_0 == (word / 0x1_0000_0000) % 0x1_0000,
        instruction.imm_1 == word / 0x1_0000_0000_0000,
        ({
            let entry = opcode_table_entry(word as int % 0x800);
            &&& instruction.opcode is FarCall <==> entry.0 == 13 && 0 <= entry.1 < 3
            &&& instruction.opcode is UMA <==> entry.0 == 15 && 0 <= entry.1 < 7
            &&& instruction.opcode matches Opcode::Other(family, subvariant) ==> {
                &&& entry.0 == family
                &&& entry.1 == subvariant
            }
            &&& entry.2 == instruction.src0_addressing
            &&& entry.3 == instruction.dst0_addressing
            &&& entry.4 == instruction.flags@[0]
            &&& entry.5 == instruction.flags@[1]
        }),
{
    lemma_opcode_names(instruction.opcode);
}

/// An encoded instruction is the sum of its parts, each moved to its place.
pub proof fn lemma_encoded_fields(opcode: DecodedOpcode, word: u64)
    requires
        call_ensures(encode_as_integer, (&opcode,), word),
    ensures
        ({
            let index = word as int % 0x800;
            &&& word == index + 0x2000 * opcode.condition.index() + 0x1_0000 * opcode.src0_reg_idx
                + 0x10_0000 * opcode.src1_reg_idx + 0x100_0000 * opcode.dst0_reg_idx + 0x1000_0000
                * opcode.dst1_reg_idx + 0x1_0000_0000 * opcode.imm_0 + 0x1_0000_0000_0000
                * opcode.imm_1
            &&& opcode_table_entry(index) == (
                opcode.variant.opcode.family(),
                opcode.variant.opcode.subvariant(),
                0int,
                0int,
                opcode.variant.flags@[0],
                opcode.variant.flags@[1],
            )
        }),
{
    lemma_word_is_sum_of_fields(word);
}

/// Decoding an encoded instruction gives every part of it back.
pub proof fn lemma_decode_undoes_encode(opcode: DecodedOpcode, word: u64, decoded: Instruction)
    requires
        call_ensures(encode_as_integer, (&opcode,), word),
        call_ensures(decode, (word,), decoded),
    ensures
        decoded.opcode == opcode.variant.opcode,
        decoded.src0_addressing == 0,
        decoded.dst0_addressing == 0,
        decoded.flags@ == opcode.variant.flags@,
        decoded.condition == opcode.condition,
        decoded.src0_reg_idx == opcode.src0_reg_idx,
        decoded.src1_reg_idx == opcode.src1_reg_idx,
        decoded.dst0_reg_idx == opcode.dst0_reg_idx,
        decoded.dst1_reg_idx == opcode.dst1_reg_idx,
        decoded.imm_0 == opcode.imm_0,
        decoded.imm_1 == opcode.imm_1,
{
    lemma_word_says_one_instruction(word, opcode@, decoded@);
    assert(decoded@.flags == opcode@.flags);
    assert(decoded.flags@ =~= opcode.variant.flags@);
}

/// What was read from a word's fields has these fields, and its opcode and condition
/// stand at their positions.
pub proof fn lemma_instruction_from_fields(fields: WordFields, instruction: Instruction)
    requires
        call_ensures(Instruction::from_fields, (fields,), instruction),
    ensures
        instruction.opcode is FarCall <==> fields.family == 13 && fields.subvariant < 3,
        instruction.opcode is UMA <==> fields.family == 15 && fields.subvariant < 7,
        !(instruction.opcode is FarCall) && !(instruction.opcode is UMA) ==> instruction.opcode
            == Opcode::Other(fields.family, fields.subvariant),
        instruction.opcode.subvariant() == fields.subvariant,
        instruction.condition.index() == fields.condition,
        instruction.src0_addressing == fields.src0_addressing,
        instruction.dst0_addressing == fields.dst0_addressing,
        instruction.flags@ == fields.flags@,
        instruction.src0_reg_idx == fields.src0_reg_idx,
        instruction.src1_reg_idx == fields.src1_reg_idx,
        instruction.dst0_reg_idx == fields.dst0_reg_idx,
        instruction.dst1_reg_idx == fields.dst1_reg_idx,
        instruction.imm_0 == fields.imm_0,
        instruction.imm_1 == fields.imm_1,
{
    lemma_opcode_names(instruction.opcode);
    assert(instruction@.flags == (fields.flags@[0], fields.flags@[1]));
    assert(instruction.flags@ =~= fields.flags@);
}

} // verus!
