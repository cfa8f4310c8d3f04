use vm2_testkit::opcode::{
    decode, encode_as_integer, Condition, DecodedOpcode, FarCallOpcode, Instruction, Opcode,
    OpcodeVariant, Operand, UMAOpcode, WordFields,
};
use vm2_testkit::testkit::{encode_far_call, encode_uma};
use zkevm_opcode_defs::decoding::{EncodingModeProduction, VmEncodingMode};

const CONDITIONS: [(Condition, zkevm_opcode_defs::Condition); 8] = [
    (Condition::Always, zkevm_opcode_defs::Condition::Always),
    (Condition::Gt, zkevm_opcode_defs::Condition::Gt),
    (Condition::Lt, zkevm_opcode_defs::Condition::Lt),
    (Condition::Eq, zkevm_opcode_defs::Condition::Eq),
    (Condition::Ge, zkevm_opcode_defs::Condition::Ge),
    (Condition::Le, zkevm_opcode_defs::Condition::Le),
    (Condition::Ne, zkevm_opcode_defs::Condition::Ne),
    (Condition::GtOrLt, zkevm_opcode_defs::Condition::GtOrLt),
];

const FAR_CALLS: [(FarCallOpcode, zkevm_opcode_defs::FarCallOpcode); 3] = [
    (FarCallOpcode::Normal, zkevm_opcode_defs::FarCallOpcode::Normal),
    (FarCallOpcode::Delegate, zkevm_opcode_defs::FarCallOpcode::Delegate),
    (FarCallOpcode::Mimic, zkevm_opcode_defs::FarCallOpcode::Mimic),
];

const MEMORY_ACCESSES: [(UMAOpcode, zkevm_opcode_defs::UMAOpcode); 6] = [
    (UMAOpcode::HeapRead, zkevm_opcode_defs::UMAOpcode::HeapRead),
    (UMAOpcode::HeapWrite, zkevm_opcode_defs::UMAOpcode::HeapWrite),
    (UMAOpcode::AuxHeapRead, zkevm_opcode_defs::UMAOpcode::AuxHeapRead),
    (UMAOpcode::AuxHeapWrite, zkevm_opcode_defs::UMAOpcode::AuxHeapWrite),
    (UMAOpcode::StaticMemoryRead, zkevm_opcode_defs::UMAOpcode::StaticMemoryRead),
    (UMAOpcode::StaticMemoryWrite, zkevm_opcode_defs::UMAOpcode::StaticMemoryWrite),
];

fn outside_instruction(
    opcode: zkevm_opcode_defs::Opcode,
    src0_operand_type: zkevm_opcode_defs::Operand,
    flags: [bool; 2],
    condition: zkevm_opcode_defs::Condition,
    registers: [u8; 4],
    imm_0: u16,
) -> u64 {
    let instruction = zkevm_opcode_defs::DecodedOpcode::<8, EncodingModeProduction> {
        variant: zkevm_opcode_defs::OpcodeVariant {
            opcode,
            src0_operand_type,
            dst0_operand_type: zkevm_opcode_defs::Operand::RegOnly,
            flags,
        },
        condition,
        src0_reg_idx: registers[0],
        src1_reg_idx: registers[1],
        dst0_reg_idx: registers[2],
        dst1_reg_idx: registers[3],
        imm_0,
        imm_1: 0,
    };
    EncodingModeProduction::encode_as_integer(&instruction)
}

#[test]
fn far_call_words_agree_with_the_opcode_definitions() {
    for (kind, outside_kind) in FAR_CALLS {
        for (condition, outside_condition) in CONDITIONS {
            for flags in [[false, false], [false, true], [true, false], [true, true]] {
                let word = encode_far_call(kind, 1, 14, 0xabcd, flags[0], flags[1], condition);
                let mut outside_flags = [false; 2];
                outside_flags[zkevm_opcode_defs::FAR_CALL_STATIC_FLAG_IDX] = flags[0];
                outside_flags[zkevm_opcode_defs::FAR_CALL_SHARD_FLAG_IDX] = flags[1];
                let expected = outside_instruction(
                    zkevm_opcode_defs::Opcode::FarCall(outside_kind),
                    zkevm_opcode_defs::Operand::RegOnly,
                    outside_flags,
                    outside_condition,
                    [1, 14, 0, 0],
                    0xabcd,
                );
                assert_eq!(word, expected);
            }
        }
    }
}

#[test]
fn memory_access_words_agree_with_the_opcode_definitions() {
    for (kind, outside_kind) in MEMORY_ACCESSES {
        for (condition, outside_condition) in CONDITIONS {
            for increment in [false, true] {
                let word = encode_uma(kind, 1, 2, 3, 15, increment, condition);
                let mut outside_flags = [false; 2];
                outside_flags[zkevm_opcode_defs::UMA_INCREMENT_FLAG_IDX] = increment;
                let expected = outside_instruction(
                    zkevm_opcode_defs::Opcode::UMA(outside_kind),
                    zkevm_opcode_defs::Operand::RegOrImm(
                        zkevm_opcode_defs::RegOrImmFlags::UseRegOnly,
                    ),
                    outside_flags,
                    outside_condition,
                    [1, 2, 3, 15],
                    0,
                );
                assert_eq!(word, expected);
            }
        }
    }
}

#[test]
fn far_call_word_has_its_fields_in_place() {
    let word = encode_far_call(
        FarCallOpcode::Delegate,
        5,
        9,
        0x1234,
        true,
        false,
        Condition::Ne,
    );
    assert_eq!(word >> 48, 0);
    assert_eq!((word >> 32) & 0xffff, 0x1234);
    assert_eq!((word >> 28) & 0xf, 0);
    assert_eq!((word >> 24) & 0xf, 0);
    assert_eq!((word >> 20) & 0xf, 9);
    assert_eq!((word >> 16) & 0xf, 5);
    assert_eq!((word >> 13) & 0x7, 6);
    assert_eq!((word >> 11) & 0x3, 0);
}

#[test]
fn encoded_words_have_exact_values() {
    assert_eq!(
        encode_far_call(FarCallOpcode::Normal, 1, 2, 0, false, false, Condition::Always),
        0x0021_0421
    );
    assert_eq!(
        encode_uma(UMAOpcode::HeapRead, 1, 0, 3, 2, true, Condition::Always),
        0x2301_0434
    );
}

#[test]
fn decoding_an_encoded_far_call_gives_it_back() {
    for (kind, _) in FAR_CALLS {
        for (condition, _) in CONDITIONS {
            for flags in [[false, false], [false, true], [true, false], [true, true]] {
                let word = encode_far_call(kind, 7, 8, 0xbeef, flags[0], flags[1], condition);
                let expected = Instruction {
                    opcode: Opcode::FarCall(kind),
                    src0_addressing: 0,
                    dst0_addressing: 0,
                    flags,
                    condition,
                    src0_reg_idx: 7,
                    src1_reg_idx: 8,
                    dst0_reg_idx: 0,
                    dst1_reg_idx: 0,
                    imm_0: 0xbeef,
                    imm_1: 0,
                };
                assert_eq!(decode(word), expected);
            }
        }
    }
}

#[test]
fn decoding_an_encoded_memory_access_gives_it_back() {
    for (kind, _) in MEMORY_ACCESSES {
        for increment in [false, true] {
            let word = encode_uma(kind, 1, 2, 3, 4, increment, Condition::GtOrLt);
            let expected = Instruction {
                opcode: Opcode::UMA(kind),
                src0_addressing: 0,
                dst0_addressing: 0,
                flags: [increment, false],
                condition: Condition::GtOrLt,
                src0_reg_idx: 1,
                src1_reg_idx: 2,
                dst0_reg_idx: 3,
                dst1_reg_idx: 4,
                imm_0: 0,
                imm_1: 0,
            };
            assert_eq!(decode(word), expected);
        }
    }
}

#[test]
fn fat_pointer_read_is_encoded_with_a_plain_register() {
    let instruction = DecodedOpcode {
        variant: OpcodeVariant {
            opcode: Opcode::UMA(UMAOpcode::FatPointerRead),
            src0_operand_type: Operand::RegOnly,
            dst0_operand_type: Operand::RegOnly,
            flags: [true, false],
        },
        condition: Condition::Lt,
        src0_reg_idx: 1,
        src1_reg_idx: 0,
        dst0_reg_idx: 2,
        dst1_reg_idx: 3,
        imm_0: 11,
        imm_1: 0xfedc,
    };
    let word = encode_as_integer(&instruction);
    let decoded = decode(word);
    assert_eq!(decoded.opcode, Opcode::UMA(UMAOpcode::FatPointerRead));
    assert_eq!(decoded.flags, [true, false]);
    assert_eq!(decoded.condition, Condition::Lt);
    assert_eq!(decoded.dst1_reg_idx, 3);
    assert_eq!(decoded.imm_0, 11);
    assert_eq!(decoded.imm_1, 0xfedc);
}

#[test]
fn different_instructions_have_different_words() {
    let mut words = Vec::new();
    for (kind, _) in FAR_CALLS {
        for (condition, _) in CONDITIONS {
            for flags in [[false, false], [false, true], [true, false], [true, true]] {
                words.push(encode_far_call(kind, 1, 2, 3, flags[0], flags[1], condition));
            }
        }
    }
    for (kind, _) in MEMORY_ACCESSES {
        for increment in [false, true] {
            words.push(encode_uma(kind, 1, 2, 3, 4, increment, Condition::Always));
        }
    }
    let count = words.len();
    words.sort();
    words.dedup();
    assert_eq!(words.len(), count);
}

#[test]
fn every_table_entry_can_be_decoded() {
    for index in 0..0x800u64 {
        let outside =
            EncodingModeProduction::parse_preliminary_variant_and_absolute_number(index).0;
        let ours = decode(index);
        let is_far_call = matches!(
            outside.variant.opcode,
            zkevm_opcode_defs::Opcode::FarCall(_)
        );
        assert_eq!(matches!(ours.opcode, Opcode::FarCall(_)), is_far_call);
        let is_uma = matches!(outside.variant.opcode, zkevm_opcode_defs::Opcode::UMA(_));
        assert_eq!(matches!(ours.opcode, Opcode::UMA(_)), is_uma);
        assert_eq!(ours.flags, outside.variant.flags);
    }
}

#[test]
fn unused_bits_do_not_matter() {
    let word = encode_uma(UMAOpcode::HeapWrite, 1, 2, 3, 0, false, Condition::Eq);
    assert_eq!(decode(word | 0x1800), decode(word));
}

fn plain_fields(family: usize, subvariant: usize, condition: usize) -> WordFields {
    WordFields {
        family,
        subvariant,
        src0_addressing: 4,
        dst0_addressing: 3,
        flags: [false, true],
        condition,
        src0_reg_idx: 1,
        src1_reg_idx: 2,
        dst0_reg_idx: 3,
        dst1_reg_idx: 4,
        imm_0: 5,
        imm_1: 6,
    }
}

#[test]
fn fields_get_their_names() {
    for (index, (kind, _)) in FAR_CALLS.iter().enumerate() {
        let instruction = Instruction::from_fields(plain_fields(13, index, 0));
        assert_eq!(instruction.opcode, Opcode::FarCall(*kind));
        assert!(instruction.is_far_call());
    }
    let kinds = [
        UMAOpcode::HeapRead,
        UMAOpcode::HeapWrite,
        UMAOpcode::AuxHeapRead,
        UMAOpcode::AuxHeapWrite,
        UMAOpcode::FatPointerRead,
        UMAOpcode::StaticMemoryRead,
        UMAOpcode::StaticMemoryWrite,
    ];
    for (index, kind) in kinds.iter().enumerate() {
        let instruction = Instruction::from_fields(plain_fields(15, index, 0));
        assert_eq!(instruction.opcode, Opcode::UMA(*kind));
        assert!(!instruction.is_far_call());
    }
    for (index, (condition, _)) in CONDITIONS.iter().enumerate() {
        assert_eq!(Instruction::from_fields(plain_fields(0, 0, index)).condition, *condition);
    }
}

#[test]
fn nameless_fields_are_kept() {
    assert_eq!(
        Instruction::from_fields(plain_fields(2, 1, 6)),
        Instruction {
            opcode: Opcode::Other(2, 1),
            src0_addressing: 4,
            dst0_addressing: 3,
            flags: [false, true],
            condition: Condition::Ne,
            src0_reg_idx: 1,
            src1_reg_idx: 2,
            dst0_reg_idx: 3,
            dst1_reg_idx: 4,
            imm_0: 5,
            imm_1: 6,
        }
    );
    assert_eq!(Instruction::from_fields(plain_fields(13, 3, 0)).opcode, Opcode::Other(13, 3));
    assert!(!Instruction::from_fields(plain_fields(13, 3, 0)).is_far_call());
}
