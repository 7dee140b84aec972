use kuragemu_riscv::processor::decoder::error::InstructionDecodingErrorType;
use kuragemu_riscv::processor::decoder::instruction::{
    AluCode, BranchOption, ByteWideOption, Instruction, InstructionCode, RiscvForm,
    RiscvInstruction,
};
use kuragemu_riscv::processor::decoder::{decode, immediate, sign_extension};
use kuragemu_riscv::processor::{ProcessorError, ProcessorErrorTrait};

fn decoding_fault(word: u32) -> InstructionDecodingErrorType {
    match decode(word) {
        Err(ProcessorError::Decode(error)) => error.error_type,
        other => panic!("expected a decoding fault, got {:?}", other),
    }
}

#[test]
fn test_sign_extension() {
    assert_eq!(sign_extension(1, 1), 1);
    assert_eq!(sign_extension(1, 0), u32::MAX);
    assert_eq!(sign_extension(2, 1), u32::MAX - 1);
    assert_eq!(sign_extension(2, 0), 0);
    assert_eq!(sign_extension(8, 0), 0);
    assert_eq!(sign_extension(8, 1), 0);
    assert_eq!(sign_extension(8, 2), 0);
    assert_eq!(sign_extension(8, 3), u32::MAX - 7);
    assert_eq!(sign_extension(0x808, 11), 0xFFFFF808);
    assert_eq!(sign_extension(0x008, 11), 8);
}

#[test]
fn test_immediate() {
    assert_eq!(immediate(0xFEDCBC37, &RiscvForm::U), 0xFEDCB000);
    assert_eq!(immediate(0xFEDCBC6F, &RiscvForm::J), 0xFFFCBFEC);
    assert_eq!(immediate(0xABC00067, &RiscvForm::I), 0xFFFFFABC);
    assert_eq!(immediate(0xDC000A63, &RiscvForm::B), 0xFFFFF5D4);
    assert_eq!(immediate(0x9E000DA3, &RiscvForm::S), 0xFFFFF9FB);
    assert_eq!(immediate(0x01A01013, &RiscvForm::I), 0xFFFFFFFA);
    assert_eq!(immediate(0x40A05013, &RiscvForm::I), 0x0000000A);
}

#[test]
fn test_byte_wide_option() {
    let opt = ByteWideOption::Byte;
    assert_eq!(opt.overwrite_mask(0), 0x000000FF);
    assert_eq!(opt.overwrite_mask(1), 0x0000FF00);
    assert_eq!(opt.overwrite_mask(2), 0x00FF0000);
    assert_eq!(opt.overwrite_mask(3), 0xFF000000);
    let opt = ByteWideOption::HalfWord;
    assert_eq!(opt.overwrite_mask(0), 0x0000FFFF);
    assert_eq!(opt.overwrite_mask(1), 0x00FFFF00);
    assert_eq!(opt.overwrite_mask(2), 0xFFFF0000);
    assert_eq!(!opt.overwrite_mask(2), 0x0000FFFF);
    let opt = ByteWideOption::Word;
    assert_eq!(opt.overwrite_mask(0), 0xFFFFFFFF);
}

#[test]
fn sign_extension_at_the_top_bit_keeps_the_word() {
    assert_eq!(sign_extension(0x8000_0001, 31), 0x8000_0001);
    assert_eq!(sign_extension(0x7FFF_FFFF, 31), 0x7FFF_FFFF);
    assert_eq!(sign_extension(0xFFFF_FFFF, 0), 0xFFFF_FFFF);
}

#[test]
fn sign_extension_of_a_value_that_fits() {
    // bit 11 clear: unchanged; bit 11 set: every higher bit set
    assert_eq!(sign_extension(0x7FF, 11), 0x7FF);
    assert_eq!(sign_extension(0xFFF, 11), 0xFFF | !0xFFFu32);
    assert_eq!(sign_extension(0x10, 4), 0xFFFF_FFF0);
}

#[test]
fn overwrite_mask_of_a_halfword_at_the_last_byte() {
    assert_eq!(ByteWideOption::HalfWord.overwrite_mask(3), 0xFF00_0000);
    assert_eq!(ByteWideOption::HalfWordUnsigned.overwrite_mask(1), 0x00FF_FF00);
    assert_eq!(ByteWideOption::ByteUnsigned.overwrite_mask(2), 0x00FF_0000);
    assert_eq!(ByteWideOption::Word.overwrite_mask(3), 0xFFFF_FFFF);
}

#[test]
fn byte_masks_at_distinct_offsets_are_disjoint() {
    for a in 0..4 {
        for b in 0..4 {
            if a != b {
                let both = ByteWideOption::Byte.overwrite_mask(a)
                    & ByteWideOption::Byte.overwrite_mask(b);
                assert_eq!(both, 0);
            }
        }
    }
}

#[test]
fn trim_extracts_and_extends() {
    let raw = 0x80FF_7F81;
    assert_eq!(ByteWideOption::Byte.trim(raw, 0), 0xFFFF_FF81);
    assert_eq!(ByteWideOption::ByteUnsigned.trim(raw, 0), 0x81);
    assert_eq!(ByteWideOption::Byte.trim(raw, 1), 0x7F);
    assert_eq!(ByteWideOption::ByteUnsigned.trim(raw, 2), 0xFF);
    assert_eq!(ByteWideOption::Byte.trim(raw, 3), 0xFFFF_FF80);
    assert_eq!(ByteWideOption::HalfWord.trim(raw, 0), 0x7F81);
    assert_eq!(ByteWideOption::HalfWord.trim(raw, 2), 0xFFFF_80FF);
    assert_eq!(ByteWideOption::HalfWordUnsigned.trim(raw, 2), 0x80FF);
    assert_eq!(ByteWideOption::HalfWordUnsigned.trim(raw, 1), 0xFF7F);
    assert_eq!(ByteWideOption::HalfWord.trim(raw, 3), 0x80);
    assert_eq!(ByteWideOption::Word.trim(raw, 0), raw);
    assert_eq!(ByteWideOption::Word.trim(raw, 3), raw);
}

#[test]
fn decode_lui() {
    let inst = decode(0xFEDCBC37).unwrap();
    assert_eq!(inst.code, InstructionCode::Lui);
    assert_eq!(inst.form, RiscvForm::U);
    assert_eq!(inst.imm, 0xFEDCB000);
    assert_eq!(inst.rd, 24);
    assert_eq!(inst.raw, 0xFEDCBC37);
    assert!(!inst.is_halt);
}

#[test]
fn decode_jal() {
    let inst = decode(0xFEDCBC6F).unwrap();
    assert_eq!(inst.code, InstructionCode::Jal);
    assert_eq!(inst.form, RiscvForm::J);
    assert_eq!(inst.imm, 0xFFFCBFEC);
}

#[test]
fn decode_jalr() {
    let inst = decode(0xABC00067).unwrap();
    assert_eq!(inst.code, InstructionCode::Jalr);
    assert_eq!(inst.form, RiscvForm::I);
    assert_eq!(inst.imm, 0xFFFFFABC);
}

#[test]
fn decode_branch() {
    let inst = decode(0xDC000A63).unwrap();
    assert_eq!(inst.code, InstructionCode::Branch(BranchOption::Equal));
    assert_eq!(inst.form, RiscvForm::B);
    assert_eq!(inst.imm, 0xFFFFF5D4);
}

#[test]
fn decode_store() {
    let inst = decode(0x9E000DA3).unwrap();
    assert_eq!(inst.code, InstructionCode::Store(ByteWideOption::Byte));
    assert_eq!(inst.form, RiscvForm::S);
    assert_eq!(inst.imm, 0xFFFFF9FB);
}

#[test]
fn decode_shift_immediates() {
    let inst = decode(0x01A01013).unwrap();
    assert_eq!(inst.code, InstructionCode::OpeI(AluCode::Sll));
    assert_eq!(inst.imm, 0xFFFFFFFA);
    let inst = decode(0x40A05013).unwrap();
    assert_eq!(inst.code, InstructionCode::OpeI(AluCode::Sra));
    assert_eq!(inst.imm, 0x0000000A);
    let inst = decode(0x00A05013).unwrap();
    assert_eq!(inst.code, InstructionCode::OpeI(AluCode::Srl));
}

#[test]
fn decode_register_fields() {
    // add a2, a0, a1
    let inst = decode(0x00B50633).unwrap();
    assert_eq!(inst.code, InstructionCode::Ope(AluCode::Add));
    assert_eq!(inst.form, RiscvForm::R);
    assert_eq!((inst.rs1, inst.rs2, inst.rd), (10, 11, 12));
    assert_eq!(inst.imm, 0);
    // sub a2, a0, a1
    let inst = decode(0x40B50633).unwrap();
    assert_eq!(inst.code, InstructionCode::Ope(AluCode::Sub));
    // sra a2, a0, a1
    let inst = decode(0x40B55633).unwrap();
    assert_eq!(inst.code, InstructionCode::Ope(AluCode::Sra));
}

#[test]
fn decode_loads_of_every_width() {
    assert_eq!(decode(0x00000503).unwrap().code, InstructionCode::Load(ByteWideOption::Byte));
    assert_eq!(decode(0x00001503).unwrap().code, InstructionCode::Load(ByteWideOption::HalfWord));
    assert_eq!(decode(0x00002503).unwrap().code, InstructionCode::Load(ByteWideOption::Word));
    assert_eq!(
        decode(0x00004503).unwrap().code,
        InstructionCode::Load(ByteWideOption::ByteUnsigned)
    );
    assert_eq!(
        decode(0x00005503).unwrap().code,
        InstructionCode::Load(ByteWideOption::HalfWordUnsigned)
    );
}

#[test]
fn decode_is_a_function_of_the_word() {
    for word in [0x00150513u32, 0xFEDCBC6F, 0x00002063, 0x0000007F, 0] {
        let first = decode(word);
        let second = decode(word);
        match (first, second) {
            (Ok(a), Ok(b)) => assert_eq!(a, b),
            (Err(a), Err(b)) => assert_eq!(a.form(), b.form()),
            _ => panic!("two decodings of one word differ"),
        }
    }
}

#[test]
fn decode_rejects_an_unknown_opcode() {
    assert!(matches!(decoding_fault(0x0000007F), InstructionDecodingErrorType::UndefinedRiscvForm));
    assert!(matches!(decoding_fault(0x0000000F), InstructionDecodingErrorType::UndefinedRiscvForm));
    assert!(matches!(decoding_fault(0x00000073), InstructionDecodingErrorType::UndefinedRiscvForm));
    assert!(matches!(decoding_fault(0), InstructionDecodingErrorType::UndefinedRiscvForm));
}

#[test]
fn decode_rejects_an_undefined_branch() {
    assert!(matches!(
        decoding_fault(0x00002063),
        InstructionDecodingErrorType::UndefinedBranchOption(2)
    ));
    assert!(matches!(
        decoding_fault(0x00003063),
        InstructionDecodingErrorType::UndefinedBranchOption(3)
    ));
}

#[test]
fn decode_rejects_an_undefined_width() {
    assert!(matches!(
        decoding_fault(0x00003003),
        InstructionDecodingErrorType::UndefinedByteWideOption(3)
    ));
    assert!(matches!(
        decoding_fault(0x00007023),
        InstructionDecodingErrorType::UndefinedByteWideOption(7)
    ));
}

#[test]
fn decode_rejects_an_unsigned_store() {
    assert!(matches!(decoding_fault(0x00004023), InstructionDecodingErrorType::StoreMustBeSigned));
    assert!(matches!(decoding_fault(0x00005023), InstructionDecodingErrorType::StoreMustBeSigned));
}

#[test]
fn decode_rejects_an_invalid_alu_operation() {
    assert!(matches!(decoding_fault(0x02000033), InstructionDecodingErrorType::InvalidAluOperation));
    assert!(matches!(decoding_fault(0x02005033), InstructionDecodingErrorType::InvalidAluOperation));
    assert!(matches!(decoding_fault(0x02005013), InstructionDecodingErrorType::InvalidAluOperation));
}

#[test]
fn conversions_from_fields() {
    assert_eq!(AluCode::try_from((0x20, 0, false)).unwrap(), AluCode::Sub);
    assert_eq!(AluCode::try_from((0x20, 0, true)).unwrap(), AluCode::Add);
    assert_eq!(AluCode::try_from((0x7F, 7, false)).unwrap(), AluCode::And);
    assert!(AluCode::try_from((0, 8, false)).is_err());
    assert_eq!(BranchOption::try_from(5).unwrap(), BranchOption::GraterEqual);
    assert_eq!(ByteWideOption::try_from(4).unwrap(), ByteWideOption::ByteUnsigned);
    assert_eq!(RiscvForm::try_from(0x67).unwrap(), RiscvForm::I);
    assert!(RiscvForm::try_from(0).is_err());
    assert_eq!(InstructionCode::try_from((0, 0, 0x37)).unwrap(), InstructionCode::Lui);
    assert!(InstructionCode::try_from((0, 0, 0)).is_err());
}

#[test]
fn instruction_new_marks_the_zero_word() {
    let inst = Instruction::new(0, InstructionCode::Lui, RiscvForm::U, [1, 2, 3], 7);
    assert!(inst.is_halt);
    assert_eq!((inst.rs1, inst.rs2, inst.rd, inst.imm, inst.raw), (1, 2, 3, 7, 0));
    let inst = Instruction::new(5, InstructionCode::Jal, RiscvForm::J, [1, 2, 3], 7);
    assert!(!inst.is_halt);
}

#[test]
fn assembly_of_instructions() {
    assert_eq!(decode(0x00150513).unwrap().assembly(), "addi a0, a0, 1");
    assert_eq!(decode(0x00001537).unwrap().assembly(), "lui a0, 4096");
    assert_eq!(decode(0xFFF00513).unwrap().assembly(), "addi a0, zero, -1");
    assert_eq!(decode(0x00B50633).unwrap().assembly(), "add a2, a0, a1");
    assert_eq!(decode(0x00B50463).unwrap().assembly(), "beq a0, a1, 8");
    assert_eq!(decode(0x00A58023).unwrap().assembly(), "sb a0, 0, (a1)");
    assert_eq!(decode(0x0005C603).unwrap().assembly(), "lbu a2, 0, (a1)");
    assert_eq!(decode(0x00C000EF).unwrap().assembly(), "jal ra, 12");
    assert_eq!(decode(0x00008067).unwrap().assembly(), "jalr zero, ra, 0");
    assert_eq!(decode(0x00001517).unwrap().assembly(), "auipc a0, 4096");
    assert_eq!(decode(0x80000537).unwrap().assembly(), "lui a0, -2147483648");
}

#[test]
fn text_of_an_instruction_ends_with_its_word() {
    assert_eq!(decode(0x00150513).unwrap().to_string(), "addi a0, a0, 1; 0x00150513");
    assert_eq!(decode(0xFEDCBC37).unwrap().to_string(), "lui s8, -19091456; 0xfedcbc37");
}

#[test]
fn mnemonics() {
    assert_eq!(AluCode::Sltu.assembly(), "sltu");
    assert_eq!(AluCode::And.to_string(), "and");
    assert_eq!(BranchOption::GraterEqualUnsigned.assembly(), "bgeu");
    assert_eq!(BranchOption::LessThan.to_string(), "blt");
    assert_eq!(ByteWideOption::HalfWordUnsigned.assembly(), "hu");
    assert_eq!(ByteWideOption::Word.to_string(), "w");
}

#[test]
fn texts_of_decoding_faults() {
    assert_eq!(
        decode(0x00002063).unwrap_err().form(),
        "decode instruction is failed - get undefined branch option: 2"
    );
    assert_eq!(
        decode(0x00007003).unwrap_err().form(),
        "decode instruction is failed - get undefined byte-wide option: 7"
    );
    assert_eq!(
        decode(0x0000007F).unwrap_err().form(),
        "decode instruction is failed - get undefined riscv form"
    );
    assert_eq!(
        decode(0x00004023).unwrap_err().form(),
        "decode instruction is failed - load instruction must be signed"
    );
    assert_eq!(
        decode(0x02000033).unwrap_err().to_string(),
        "decode instruction is failed - invalid (funct7, funct3) value given"
    );
    assert_eq!(
        InstructionDecodingErrorType::UndefinedBranchOption(255).to_string(),
        "get undefined branch option: 255"
    );
}
