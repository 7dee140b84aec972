use vstd::prelude::*;
use vstd::std_specs::convert::TryFromSpecImpl;
use vstd::string::StringExecFns;

use super::error::{InstructionDecodingError, InstructionDecodingErrorType};
use super::{sign_extension, spec_sign_extension};
use crate::processor::register::RegisterAlias;
use crate::processor::ProcessorError;
use crate::text::{push_hex_word, push_signed_decimal, spec_hex_word, spec_signed_decimal};
use crate::word::{field, lemma_byte_shift_right, signed};

verus! {

/// The fault that decoding raises for the given reason.
pub open spec fn decoding_error(error_type: InstructionDecodingErrorType) -> ProcessorError {
    ProcessorError::Decode(Box::new(InstructionDecodingError { error_type }))
}

/// What has a text in assembly language.
pub trait RiscvInstruction {
    /// Whether the value has such a text.
    spec fn has_assembly(&self) -> bool;

    /// The text of the value in assembly language.
    spec fn spec_assembly(&self) -> Seq<char>;

    fn assembly(&self) -> (text: String)
        requires
            self.has_assembly(),
        ensures
            text@ == self.spec_assembly(),
    ;
}

/// The operations of the arithmetic and logic unit.
#[derive(Clone, Copy, Debug, PartialEq, Eq, Structural)]
pub enum AluCode {
    Add,
    Sub,
    Slt,
    Sltu,
    Sll,
    Srl,
    Sra,
    Xor,
    Or,
    And,
}

impl RiscvInstruction for AluCode {
    open spec fn has_assembly(&self) -> bool {
        true
    }

    open spec fn spec_assembly(&self) -> Seq<char> {
        match self {
            AluCode::Add => "add"@,
            AluCode::Sub => "sub"@,
            AluCode::Slt => "slt"@,
            AluCode::Sltu => "sltu"@,
            AluCode::Sll => "sll"@,
            AluCode::Srl => "srl"@,
            AluCode::Sra => "sra"@,
            AluCode::Xor => "xor"@,
            AluCode::Or => "or"@,
            AluCode::And => "and"@,
        }
    }

    fn assembly(&self) -> (text: String) {
        String::from_str(
            match self {
                AluCode::Add => "add",
                AluCode::Sub => "sub",
                AluCode::Slt => "slt",
                AluCode::Sltu => "sltu",
                AluCode::Sll => "sll",
                AluCode::Srl => "srl",
                AluCode::Sra => "sra",
                AluCode::Xor => "xor",
                AluCode::Or => "or",
                AluCode::And => "and",
            },
        )
    }
}

impl AluCode {
    pub fn to_string(&self) -> (text: String)
        ensures
            text@ == self.spec_assembly(),
    {
        self.assembly()
    }
}

impl TryFrom<(u8, u8, bool)> for AluCode {
    type Error = ProcessorError;

    fn try_from(v: (u8, u8, bool)) -> (r: Result<Self, Self::Error>) {
        let funct7 = v.0;
        let funct3 = v.1;
        let imm = v.2;
        let error_type = InstructionDecodingErrorType::InvalidAluOperation;
        let error = ProcessorError::Decode(InstructionDecodingError::new(error_type));

        match funct3 {
            0b000 => {
                if imm {
                    Ok(AluCode::Add)
                } else {
                    match funct7 {
                        0b0000000 => Ok(AluCode::Add),
                        0b0100000 => Ok(AluCode::Sub),
                        _ => Err(error),
                    }
                }
            },
            0b001 => Ok(AluCode::Sll),
            0b010 => Ok(AluCode::Slt),
            0b011 => Ok(AluCode::Sltu),
            0b100 => Ok(AluCode::Xor),
            0b101 => match funct7 {
                0b0000000 => Ok(AluCode::Srl),
                0b0100000 => Ok(AluCode::Sra),
                _ => Err(error),
            },
            0b110 => Ok(AluCode::Or),
            0b111 => Ok(AluCode::And),
            _ => Err(error),
        }
    }
}

impl AluCode {
    /// The operation that `(funct7, funct3)` select, in an instruction with an immediate operand
    /// or in one with two registers.
    pub open spec fn spec_try_from(v: (u8, u8, bool)) -> Result<Self, ProcessorError> {
        let (funct7, funct3, imm) = v;
        if funct3 == 0 {
            if imm || funct7 == 0x00 {
                Ok(AluCode::Add)
            } else if funct7 == 0x20 {
                Ok(AluCode::Sub)
            } else {
                Err(decoding_error(InstructionDecodingErrorType::InvalidAluOperation))
            }
        } else if funct3 == 1 {
            Ok(AluCode::Sll)
        } else if funct3 == 2 {
            Ok(AluCode::Slt)
        } else if funct3 == 3 {
            Ok(AluCode::Sltu)
        } else if funct3 == 4 {
            Ok(AluCode::Xor)
        } else if funct3 == 5 && funct7 == 0x00 {
            Ok(AluCode::Srl)
        } else if funct3 == 5 && funct7 == 0x20 {
            Ok(AluCode::Sra)
        } else if funct3 == 6 {
            Ok(AluCode::Or)
        } else if funct3 == 7 {
            Ok(AluCode::And)
        } else {
            Err(decoding_error(InstructionDecodingErrorType::InvalidAluOperation))
        }
    }
}

impl TryFromSpecImpl<(u8, u8, bool)> for AluCode {
    open spec fn obeys_try_from_spec() -> bool {
        true
    }

    open spec fn try_from_spec(v: (u8, u8, bool)) -> Result<Self, Self::Error> {
        Self::spec_try_from(v)
    }
}

/// The comparisons of a branch.
#[derive(Clone, Copy, Debug, PartialEq, Eq, Structural)]
pub enum BranchOption {
    Equal,
    NotEqual,
    LessThan,
    GraterEqual,
    LessThanUnsigned,
    GraterEqualUnsigned,
}

impl RiscvInstruction for BranchOption {
    open spec fn has_assembly(&self) -> bool {
        true
    }

    open spec fn spec_assembly(&self) -> Seq<char> {
        match self {
            BranchOption::Equal => "beq"@,
            BranchOption::NotEqual => "bne"@,
            BranchOption::GraterEqual => "bge"@,
            BranchOption::GraterEqualUnsigned => "bgeu"@,
            BranchOption::LessThan => "blt"@,
            BranchOption::LessThanUnsigned => "bltu"@,
        }
    }

    fn assembly(&self) -> (text: String) {
        String::from_str(
            match self {
                BranchOption::Equal => "beq",
                BranchOption::NotEqual => "bne",
                BranchOption::GraterEqual => "bge",
                BranchOption::GraterEqualUnsigned => "bgeu",
                BranchOption::LessThan => "blt",
                BranchOption::LessThanUnsigned => "bltu",
            },
        )
    }
}

impl BranchOption {
    pub fn to_string(&self) -> (text: String)
        ensures
            text@ == self.spec_assembly(),
    {
        self.assembly()
    }
}

impl TryFrom<u8> for BranchOption {
    type Error = ProcessorError;

    fn try_from(funct3: u8) -> (r: Result<Self, Self::Error>) {
        match funct3 {
            0b000 => Ok(BranchOption::Equal),
            0b001 => Ok(BranchOption::NotEqual),
            0b100 => Ok(BranchOption::LessThan),
            0b101 => Ok(BranchOption::GraterEqual),
            0b110 => Ok(BranchOption::LessThanUnsigned),
            0b111 => Ok(BranchOption::GraterEqualUnsigned),
            _ => {
                let error_type = InstructionDecodingErrorType::UndefinedBranchOption(funct3);
                Err(ProcessorError::Decode(InstructionDecodingError::new(error_type)))
            },
        }
    }
}

impl BranchOption {
    /// The comparison that the `funct3` of a branch selects.
    pub open spec fn spec_try_from(funct3: u8) -> Result<Self, ProcessorError> {
        if funct3 == 0 {
            Ok(BranchOption::Equal)
        } else if funct3 == 1 {
            Ok(BranchOption::NotEqual)
        } else if funct3 == 4 {
            Ok(BranchOption::LessThan)
        } else if funct3 == 5 {
            Ok(BranchOption::GraterEqual)
        } else if funct3 == 6 {
            Ok(BranchOption::LessThanUnsigned)
        } else if funct3 == 7 {
            Ok(BranchOption::GraterEqualUnsigned)
        } else {
            Err(decoding_error(InstructionDecodingErrorType::UndefinedBranchOption(funct3)))
        }
    }
}

impl TryFromSpecImpl<u8> for BranchOption {
    open spec fn obeys_try_from_spec() -> bool {
        true
    }

    open spec fn try_from_spec(funct3: u8) -> Result<Self, Self::Error> {
        Self::spec_try_from(funct3)
    }
}

/// The widths of a load or store: byte, halfword or word, the two narrow ones signed or
/// unsigned.
#[derive(Clone, Copy, Debug, PartialEq, Eq, Structural)]
pub enum ByteWideOption {
    Byte,
    HalfWord,
    Word,
    ByteUnsigned,
    HalfWordUnsigned,
}

/// The byte of `raw` at its byte `diff`.
pub open spec fn spec_byte(raw: u32, diff: u32) -> u32 {
    if diff == 0 {
        field(raw, 0x1, 0x100)
    } else if diff == 1 {
        field(raw, 0x100, 0x100)
    } else if diff == 2 {
        field(raw, 0x1_0000, 0x100)
    } else {
        field(raw, 0x100_0000, 0x100)
    }
}

/// The halfword of `raw` that starts at its byte `diff`, as far as it lies in the word: from
/// byte 3 on there is one byte only.
pub open spec fn spec_half(raw: u32, diff: u32) -> u32 {
    if diff == 0 {
        field(raw, 0x1, 0x1_0000)
    } else if diff == 1 {
        field(raw, 0x100, 0x1_0000)
    } else if diff == 2 {
        field(raw, 0x1_0000, 0x1_0000)
    } else {
        field(raw, 0x100_0000, 0x100)
    }
}

impl ByteWideOption {
    /// How many bits an access of this width covers.
    pub open spec fn spec_bits(&self) -> u32 {
        match self {
            ByteWideOption::Byte | ByteWideOption::ByteUnsigned => 8,
            ByteWideOption::HalfWord | ByteWideOption::HalfWordUnsigned => 16,
            ByteWideOption::Word => 32,
        }
    }

    /// What a load of this width yields from the word `raw`, starting at its byte `diff`: the
    /// byte or halfword there, with its top bit copied upwards if the width is a signed one; or
    /// the whole word, wherever the load starts.
    pub open spec fn spec_trim(&self, raw: u32, diff: u32) -> u32 {
        match self {
            ByteWideOption::Byte => spec_sign_extension(spec_byte(raw, diff), 7),
            ByteWideOption::ByteUnsigned => spec_byte(raw, diff),
            ByteWideOption::HalfWord => spec_sign_extension(spec_half(raw, diff), 15),
            ByteWideOption::HalfWordUnsigned => spec_half(raw, diff),
            ByteWideOption::Word => raw,
        }
    }

    /// Extracts from the word `raw` what a load of this width at its byte `diff` yields.
    pub fn trim(&self, raw: u32, diff: u32) -> (r: u32)
        requires
            diff < 4,
        ensures
            r == self.spec_trim(raw, diff),
    {
        let shift: u32 = 8 * diff;
        proof {
            lemma_byte_shift_right(raw, diff, shift);
        }
        match self {
            ByteWideOption::Byte => {
                let value: u32 = (raw >> shift) % 0x100;
                sign_extension(value, 7)
            },
            ByteWideOption::ByteUnsigned => (raw >> shift) % 0x100,
            ByteWideOption::HalfWord => {
                let value: u32 = (raw >> shift) % 0x1_0000;
                sign_extension(value, 15)
            },
            ByteWideOption::HalfWordUnsigned => (raw >> shift) % 0x1_0000,
            ByteWideOption::Word => raw,
        }
    }

    /// The bits of a word that a store of this width at byte `diff` replaces. A halfword at
    /// byte 3 reaches the top byte only; a word store replaces the whole word.
    pub open spec fn spec_overwrite_mask(&self, diff: u32) -> u32 {
        match self {
            ByteWideOption::Byte | ByteWideOption::ByteUnsigned => if diff == 0 {
                0x0000_00FF
            } else if diff == 1 {
                0x0000_FF00
            } else if diff == 2 {
                0x00FF_0000
            } else {
                0xFF00_0000
            },
            ByteWideOption::HalfWord | ByteWideOption::HalfWordUnsigned => if diff == 0 {
                0x0000_FFFF
            } else if diff == 1 {
                0x00FF_FF00
            } else if diff == 2 {
                0xFFFF_0000
            } else {
                0xFF00_0000
            },
            ByteWideOption::Word => 0xFFFF_FFFF,
        }
    }

    /// The mask of the bits that a store of this width at byte `diff` replaces.
    pub fn overwrite_mask(&self, diff: u32) -> (mask: u32)
        requires
            diff < 4,
        ensures
            mask == self.spec_overwrite_mask(diff),
    {
        let shift: u32 = 8 * diff;
        assert(0xFFu32 << shift == ByteWideOption::Byte.spec_overwrite_mask(diff) && 0xFFFFu32
            << shift == ByteWideOption::HalfWord.spec_overwrite_mask(diff)) by {
            lemma_mask_shift(diff, shift);
        }
        match self {
            ByteWideOption::Byte | ByteWideOption::ByteUnsigned => 0xFFu32 << shift,
            ByteWideOption::HalfWord | ByteWideOption::HalfWordUnsigned => 0xFFFFu32 << shift,
            ByteWideOption::Word => 0xFFFF_FFFF,
        }
    }
}

/// The byte and the halfword at byte `diff` of a word are the word moved down by `diff` bytes
/// and cut to 8 and to 16 bits.
pub proof fn lemma_trim_is_shifting(raw: u32, diff: u32)
    requires
        diff < 4,
    ensures
        spec_byte(raw, diff) == (raw >> (8 * diff) as u32) & 0xFF,
        spec_half(raw, diff) == (raw >> (8 * diff) as u32) & 0xFFFF,
{
    let shift = (8 * diff) as u32;
    let moved = raw >> shift;
    lemma_byte_shift_right(raw, diff, shift);
    assert(moved & 0xFF == moved % 0x100 && moved & 0xFFFF == moved % 0x1_0000) by (bit_vector);
}

/// The masks of a byte and of a halfword, moved up by whole bytes.
proof fn lemma_mask_shift(diff: u32, shift: u32)
    by (bit_vector)
    requires
        diff < 4,
        shift == 8 * diff,
    ensures
        diff == 0 ==> 0xFFu32 << shift == 0x0000_00FFu32 && 0xFFFFu32 << shift == 0x0000_FFFFu32,
        diff == 1 ==> 0xFFu32 << shift == 0x0000_FF00u32 && 0xFFFFu32 << shift == 0x00FF_FF00u32,
        diff == 2 ==> 0xFFu32 << shift == 0x00FF_0000u32 && 0xFFFFu32 << shift == 0xFFFF_0000u32,
        diff == 3 ==> 0xFFu32 << shift == 0xFF00_0000u32 && 0xFFFFu32 << shift == 0xFF00_0000u32,
{
}

/// The masks of byte stores at two different bytes of a word have no bit in common.
pub proof fn lemma_byte_masks_disjoint(first: u32, second: u32)
    requires
        first < 4,
        second < 4,
        first != second,
    ensures
        ByteWideOption::Byte.spec_overwrite_mask(first) & ByteWideOption::Byte.spec_overwrite_mask(
            second,
        ) == 0,
{
    assert(0xFFu32 & 0xFF00u32 == 0 && 0xFFu32 & 0xFF_0000u32 == 0 && 0xFFu32 & 0xFF00_0000u32 == 0
        && 0xFF00u32 & 0xFF_0000u32 == 0 && 0xFF00u32 & 0xFF00_0000u32 == 0 && 0xFF_0000u32
        & 0xFF00_0000u32 == 0 && 0xFF00u32 & 0xFFu32 == 0 && 0xFF_0000u32 & 0xFFu32 == 0
        && 0xFF00_0000u32 & 0xFFu32 == 0 && 0xFF_0000u32 & 0xFF00u32 == 0 && 0xFF00_0000u32
        & 0xFF00u32 == 0 && 0xFF00_0000u32 & 0xFF_0000u32 == 0) by (bit_vector);
}

impl RiscvInstruction for ByteWideOption {
    open spec fn has_assembly(&self) -> bool {
        true
    }

    open spec fn spec_assembly(&self) -> Seq<char> {
        match self {
            ByteWideOption::Byte => "b"@,
            ByteWideOption::ByteUnsigned => "bu"@,
            ByteWideOption::HalfWord => "h"@,
            ByteWideOption::HalfWordUnsigned => "hu"@,
            ByteWideOption::Word => "w"@,
        }
    }

    fn assembly(&self) -> (text: String) {
        String::from_str(
            match self {
                ByteWideOption::Byte => "b",
                ByteWideOption::ByteUnsigned => "bu",
                ByteWideOption::HalfWord => "h",
                ByteWideOption::HalfWordUnsigned => "hu",
                ByteWideOption::Word => "w",
            },
        )
    }
}

impl ByteWideOption {
    pub fn to_string(&self) -> (text: String)
        ensures
            text@ == self.spec_assembly(),
    {
        self.assembly()
    }
}

impl TryFrom<u8> for ByteWideOption {
    type Error = ProcessorError;

    fn try_from(funct3: u8) -> (r: Result<Self, Self::Error>) {
        match funct3 {
            0b000 => Ok(ByteWideOption::Byte),
            0b001 => Ok(ByteWideOption::HalfWord),
            0b010 => Ok(ByteWideOption::Word),
            0b100 => Ok(ByteWideOption::ByteUnsigned),
            0b101 => Ok(ByteWideOption::HalfWordUnsigned),
            _ => {
                let error_type = InstructionDecodingErrorType::UndefinedByteWideOption(funct3);
                Err(ProcessorError::Decode(InstructionDecodingError::new(error_type)))
            },
        }
    }
}

impl ByteWideOption {
    /// The width that the `funct3` of a load or store selects.
    pub open spec fn spec_try_from(funct3: u8) -> Result<Self, ProcessorError> {
        if funct3 == 0 {
            Ok(ByteWideOption::Byte)
        } else if funct3 == 1 {
            Ok(ByteWideOption::HalfWord)
        } else if funct3 == 2 {
            Ok(ByteWideOption::Word)
        } else if funct3 == 4 {
            Ok(ByteWideOption::ByteUnsigned)
        } else if funct3 == 5 {
            Ok(ByteWideOption::HalfWordUnsigned)
        } else {
            Err(decoding_error(InstructionDecodingErrorType::UndefinedByteWideOption(funct3)))
        }
    }
}

impl TryFromSpecImpl<u8> for ByteWideOption {
    open spec fn obeys_try_from_spec() -> bool {
        true
    }

    open spec fn try_from_spec(funct3: u8) -> Result<Self, Self::Error> {
        Self::spec_try_from(funct3)
    }
}

/// The classes of instructions, each with the sub-operation that it carries.
#[derive(Clone, Copy, Debug, PartialEq, Eq, Structural)]
pub enum InstructionCode {
    Lui,
    Auipc,
    Jal,
    Jalr,
    Branch(BranchOption),
    Load(ByteWideOption),
    Store(ByteWideOption),
    Ope(AluCode),
    OpeI(AluCode),
}

impl TryFrom<(u8, u8, u8)> for InstructionCode {
    type Error = ProcessorError;

    fn try_from(v: (u8, u8, u8)) -> (r: Result<Self, Self::Error>) {
        let funct7 = v.0;
        let funct3 = v.1;
        let opecode = v.2;
        match opecode {
            0x37 => Ok(InstructionCode::Lui),
            0x17 => Ok(InstructionCode::Auipc),
            0x6F => Ok(InstructionCode::Jal),
            0x67 => Ok(InstructionCode::Jalr),
            0x63 => {
                let branch_option = BranchOption::try_from(funct3)?;
                Ok(InstructionCode::Branch(branch_option))
            },
            0x03 => {
                let bytewide_option = ByteWideOption::try_from(funct3)?;
                Ok(InstructionCode::Load(bytewide_option))
            },
            0x23 => {
                let bytewide_option = ByteWideOption::try_from(funct3)?;
                match bytewide_option {
                    ByteWideOption::ByteUnsigned | ByteWideOption::HalfWordUnsigned => {
                        let error_type = InstructionDecodingErrorType::StoreMustBeSigned;
                        Err(ProcessorError::Decode(InstructionDecodingError::new(error_type)))
                    },
                    _ => Ok(InstructionCode::Store(bytewide_option)),
                }
            },
            0x13 => {
                let code = AluCode::try_from((funct7, funct3, true))?;
                Ok(InstructionCode::OpeI(code))
            },
            0x33 => {
                let code = AluCode::try_from((funct7, funct3, false))?;
                Ok(InstructionCode::Ope(code))
            },
            _ => {
                let error_type = InstructionDecodingErrorType::UndefinedRiscvForm;
                Err(ProcessorError::Decode(InstructionDecodingError::new(error_type)))
            },
        }
    }
}

impl InstructionCode {
    /// The class of an instruction with these `(funct7, funct3, opcode)`, sub-operation included.
    pub open spec fn spec_try_from(v: (u8, u8, u8)) -> Result<Self, ProcessorError> {
        let (funct7, funct3, opecode) = v;
        if opecode == 0x37 {
            Ok(InstructionCode::Lui)
        } else if opecode == 0x17 {
            Ok(InstructionCode::Auipc)
        } else if opecode == 0x6F {
            Ok(InstructionCode::Jal)
        } else if opecode == 0x67 {
            Ok(InstructionCode::Jalr)
        } else if opecode == 0x63 {
            match BranchOption::spec_try_from(funct3) {
                Ok(option) => Ok(InstructionCode::Branch(option)),
                Err(error) => Err(error),
            }
        } else if opecode == 0x03 {
            match ByteWideOption::spec_try_from(funct3) {
                Ok(option) => Ok(InstructionCode::Load(option)),
                Err(error) => Err(error),
            }
        } else if opecode == 0x23 {
            match ByteWideOption::spec_try_from(funct3) {
                Ok(ByteWideOption::ByteUnsigned) | Ok(ByteWideOption::HalfWordUnsigned) => Err(
                    decoding_error(InstructionDecodingErrorType::StoreMustBeSigned),
                ),
                Ok(option) => Ok(InstructionCode::Store(option)),
                Err(error) => Err(error),
            }
        } else if opecode == 0x13 {
            match AluCode::spec_try_from((funct7, funct3, true)) {
                Ok(code) => Ok(InstructionCode::OpeI(code)),
                Err(error) => Err(error),
            }
        } else if opecode == 0x33 {
            match AluCode::spec_try_from((funct7, funct3, false)) {
                Ok(code) => Ok(InstructionCode::Ope(code)),
                Err(error) => Err(error),
            }
        } else {
            Err(decoding_error(InstructionDecodingErrorType::UndefinedRiscvForm))
        }
    }
}

impl TryFromSpecImpl<(u8, u8, u8)> for InstructionCode {
    open spec fn obeys_try_from_spec() -> bool {
        true
    }

    open spec fn try_from_spec(v: (u8, u8, u8)) -> Result<Self, Self::Error> {
        Self::spec_try_from(v)
    }
}

/// The layouts of an instruction word, which say where its immediate lies.
#[derive(Clone, Copy, Debug, PartialEq, Eq, Structural)]
pub enum RiscvForm {
    R,
    I,
    B,
    S,
    J,
    U,
}

impl TryFrom<u8> for RiscvForm {
    type Error = ProcessorError;

    fn try_from(opecode: u8) -> (r: Result<Self, Self::Error>) {
        match opecode {
            51 => Ok(RiscvForm::R),
            3 | 19 | 103 => Ok(RiscvForm::I),
            99 => Ok(RiscvForm::B),
            35 => Ok(RiscvForm::S),
            111 => Ok(RiscvForm::J),
            23 | 55 => Ok(RiscvForm::U),
            _ => {
                let error_type = InstructionDecodingErrorType::UndefinedRiscvForm;
                Err(ProcessorError::Decode(InstructionDecodingError::new(error_type)))
            },
        }
    }
}

impl RiscvForm {
    /// The immediate layout that goes with an opcode.
    pub open spec fn spec_try_from(opecode: u8) -> Result<Self, ProcessorError> {
        if opecode == 0x33 {
            Ok(RiscvForm::R)
        } else if opecode == 0x03 || opecode == 0x13 || opecode == 0x67 {
            Ok(RiscvForm::I)
        } else if opecode == 0x63 {
            Ok(RiscvForm::B)
        } else if opecode == 0x23 {
            Ok(RiscvForm::S)
        } else if opecode == 0x6F {
            Ok(RiscvForm::J)
        } else if opecode == 0x17 || opecode == 0x37 {
            Ok(RiscvForm::U)
        } else {
            Err(decoding_error(InstructionDecodingErrorType::UndefinedRiscvForm))
        }
    }
}

impl TryFromSpecImpl<u8> for RiscvForm {
    open spec fn obeys_try_from_spec() -> bool {
        true
    }

    open spec fn try_from_spec(opecode: u8) -> Result<Self, Self::Error> {
        Self::spec_try_from(opecode)
    }
}

/// A decoded instruction: the word it came from, what it does, and its operands.
#[derive(Clone, Copy, Debug, PartialEq, Eq, Structural)]
pub struct Instruction {
    /// The word that was decoded.
    pub raw: u32,
    pub code: InstructionCode,
    pub form: RiscvForm,
    pub rs1: u8,
    pub rs2: u8,
    pub rd: u8,
    /// The immediate operand, sign-extended to 32 bits.
    pub imm: u32,
    /// Whether `raw` is the all-zero word, which marks a halt. The decoder gives no such
    /// instruction: the all-zero word has no class.
    pub is_halt: bool,
}

impl Instruction {
    /// Packs the parts of a decoded instruction; `registers` holds `rs1`, `rs2` and `rd`, in
    /// this order.
    pub fn new(
        instruction: u32,
        code: InstructionCode,
        form: RiscvForm,
        registers: [u8; 3],
        imm: u32,
    ) -> (inst: Self)
        ensures
            inst == (Instruction {
                raw: instruction,
                code,
                form,
                rs1: registers[0],
                rs2: registers[1],
                rd: registers[2],
                imm,
                is_halt: instruction == 0,
            }),
    {
        let is_halt = instruction == 0;

        Self {
            raw: instruction,
            code,
            form,
            rs1: registers[0],
            rs2: registers[1],
            rd: registers[2],
            imm,
            is_halt,
        }
    }
}

/// The name of register `index` in assembly language.
pub open spec fn register_text(index: u8) -> Seq<char> {
    RegisterAlias::spec_try_from(index).unwrap().spec_assembly()
}

fn register_name(index: u8) -> (text: String)
    requires
        index < 32,
    ensures
        text@ == register_text(index),
{
    match RegisterAlias::of_index(index) {
        Ok(alias) => alias.assembly(),
        Err(_) => String::from_str(""),
    }
}

impl RiscvInstruction for Instruction {
    /// An instruction has a text when the registers that it names exist.
    open spec fn has_assembly(&self) -> bool {
        self.rs1 < 32 && self.rs2 < 32 && self.rd < 32
    }

    open spec fn spec_assembly(&self) -> Seq<char> {
        let rs1 = register_text(self.rs1);
        let rs2 = register_text(self.rs2);
        let rd = register_text(self.rd);
        let imm = spec_signed_decimal(signed(self.imm));
        match self.code {
            InstructionCode::Auipc => "auipc "@ + rd + ", "@ + imm,
            InstructionCode::Branch(opt) => opt.spec_assembly() + " "@ + rs1 + ", "@ + rs2 + ", "@
                + imm,
            InstructionCode::Jal => "jal "@ + rd + ", "@ + imm,
            InstructionCode::Jalr => "jalr "@ + rd + ", "@ + rs1 + ", "@ + imm,
            InstructionCode::Load(opt) => "l"@ + opt.spec_assembly() + " "@ + rd + ", "@ + imm
                + ", ("@ + rs1 + ")"@,
            InstructionCode::Store(opt) => "s"@ + opt.spec_assembly() + " "@ + rs2 + ", "@ + imm
                + ", ("@ + rs1 + ")"@,
            InstructionCode::Lui => "lui "@ + rd + ", "@ + imm,
            InstructionCode::Ope(ope) => ope.spec_assembly() + " "@ + rd + ", "@ + rs1 + ", "@
                + rs2,
            InstructionCode::OpeI(ope) => ope.spec_assembly() + "i "@ + rd + ", "@ + rs1 + ", "@
                + imm,
        }
    }

    fn assembly(&self) -> (text: String) {
        let rs1 = register_name(self.rs1);
        let rs2 = register_name(self.rs2);
        let rd = register_name(self.rd);

        match &self.code {
            InstructionCode::Auipc => {
                let mut text = String::from_str("auipc ");
                text.append(rd.as_str());
                text.append(", ");
                push_signed_decimal(&mut text, self.imm);
                text
            },
            InstructionCode::Branch(opt) => {
                let mut text = opt.assembly();
                text.append(" ");
                text.append(rs1.as_str());
                text.append(", ");
                text.append(rs2.as_str());
                text.append(", ");
                push_signed_decimal(&mut text, self.imm);
                text
            },
            InstructionCode::Jal => {
                let mut text = String::from_str("jal ");
                text.append(rd.as_str());
                text.append(", ");
                push_signed_decimal(&mut text, self.imm);
                text
            },
            InstructionCode::Jalr => {
                let mut text = String::from_str("jalr ");
                text.append(rd.as_str());
                text.append(", ");
                text.append(rs1.as_str());
                text.append(", ");
                push_signed_decimal(&mut text, self.imm);
                text
            },
            InstructionCode::Load(opt) => {
                let mut text = String::from_str("l");
                text.append(opt.assembly().as_str());
                text.append(" ");
                text.append(rd.as_str());
                text.append(", ");
                push_signed_decimal(&mut text, self.imm);
                text.append(", (");
                text.append(rs1.as_str());
                text.append(")");
                text
            },
            InstructionCode::Store(opt) => {
                let mut text = String::from_str("s");
                text.append(opt.assembly().as_str());
                text.append(" ");
                text.append(rs2.as_str());
                text.append(", ");
                push_signed_decimal(&mut text, self.imm);
                text.append(", (");
                text.append(rs1.as_str());
                text.append(")");
                text
            },
            InstructionCode::Lui => {
                let mut text = String::from_str("lui ");
                text.append(rd.as_str());
                text.append(", ");
                push_signed_decimal(&mut text, self.imm);
                text
            },
            InstructionCode::Ope(ope) => {
                let mut text = ope.assembly();
                text.append(" ");
                text.append(rd.as_str());
                text.append(", ");
                text.append(rs1.as_str());
                text.append(", ");
                text.append(rs2.as_str());
                text
            },
            InstructionCode::OpeI(ope) => {
                let mut text = ope.assembly();
                text.append("i ");
                text.append(rd.as_str());
                text.append(", ");
                text.append(rs1.as_str());
                text.append(", ");
                push_signed_decimal(&mut text, self.imm);
                text
            },
        }
    }
}

impl Instruction {
    /// Whether the three registers that the instruction names exist.
    pub fn has_registers(&self) -> (r: bool)
        ensures
            r == self.has_assembly(),
    {
        self.rs1 < 32 && self.rs2 < 32 && self.rd < 32
    }

    /// The text of the instruction in assembly language, then the word it came from.
    pub open spec fn spec_to_string(&self) -> Seq<char> {
        self.spec_assembly() + "; "@ + spec_hex_word(self.raw)
    }

    pub fn to_string(&self) -> (text: String)
        requires
            self.has_assembly(),
        ensures
            text@ == self.spec_to_string(),
    {
        let mut text = self.assembly();
        text.append("; ");
        push_hex_word(&mut text, self.raw);
        text
    }
}

} // verus!
