pub mod error;
pub mod instruction;

use vstd::prelude::*;

use self::instruction::{Instruction, InstructionCode, RiscvForm};
use super::ProcessorError;
use crate::word::{exp2, lemma_exp2_shift, low_bits};

verus! {

/// The low `n_top` bits of `value`, with bit `n_top` of `value` copied into every bit above them.
pub open spec fn spec_sign_extension(value: u32, n_top: u32) -> u32 {
    let low = value as int % exp2(n_top) as int;
    if (value as int / exp2(n_top) as int) % 2 == 1 {
        (0x1_0000_0000 - exp2(n_top) + low) as u32
    } else {
        low as u32
    }
}

/// Cuts `value` to its bits below bit `n_top` and fills every bit from `n_top` on with bit
/// `n_top` of `value`.
pub fn sign_extension(value: u32, n_top: u32) -> (r: u32)
    requires
        n_top < 32,
    ensures
        r == spec_sign_extension(value, n_top),
{
    proof {
        lemma_exp2_shift(value, n_top);
    }
    let unit: u32 = 1u32 << n_top;
    let sign: u32 = (value >> n_top) % 2;
    let low: u32 = value % unit;
    if sign == 1 {
        u32::MAX - unit + low + 1
    } else {
        low
    }
}

/// What sign extension does to a value that fits in bits `0..=n_top`: it keeps the value when
/// bit `n_top` is clear, and sets every bit above `n_top` when it is set. Read as two's
/// complement, the result is the value when bit `n_top` is clear, and the value less
/// `exp2(n_top + 1)` when it is set.
pub proof fn lemma_sign_extension_fills(value: u32, n_top: u32)
    requires
        n_top < 32,
        value < exp2((n_top + 1) as u32),
    ensures
        value < exp2(n_top) <==> (value as int / exp2(n_top) as int) % 2 == 0,
        value < exp2(n_top) ==> spec_sign_extension(value, n_top) == value,
        value >= exp2(n_top) ==> spec_sign_extension(value, n_top) == value | !low_bits(
            (n_top + 1) as u32,
        ),
        value >= exp2(n_top) ==> spec_sign_extension(value, n_top) == value + 0x1_0000_0000
            - exp2((n_top + 1) as u32),
{
    let m = (n_top + 1) as u32;
    let mask = low_bits(m);
    let p = exp2(n_top) as int;
    let v = value as int;
    assert(exp2(m) == 2 * p);
    if v < p {
        assert(v / p == 0 && v % p == v) by (nonlinear_arith)
            requires
                0 <= v < p,
        ;
    } else {
        assert(v / p == 1 && v % p == v - p) by (nonlinear_arith)
            requires
                p <= v < 2 * p,
        ;
        assert(value | !mask == (value as u64 + 0x1_0000_0000u64 - exp2(m)) as u32)
            by (bit_vector)
            requires
                m <= 32,
                mask as u64 + 1 == exp2(m),
                value < exp2(m),
                2 * value >= exp2(m),
        ;
    }
}

/// Bits `lo` and up of a word, by the weight of bit `lo`.
pub proof fn lemma_field_shifts(w: u32)
    by (bit_vector)
    ensures
        w >> 7 == w / 0x80,
        w >> 8 == w / 0x100,
        w >> 12 == w / 0x1000,
        w >> 15 == w / 0x8000,
        w >> 20 == w / 0x10_0000,
        w >> 21 == w / 0x20_0000,
        w >> 25 == w / 0x200_0000,
        w >> 31 == w / 0x8000_0000,
{
}

/// The immediate operand that the word `instruction` carries when read in the layout `form`.
pub open spec fn spec_immediate(instruction: u32, form: RiscvForm) -> u32 {
    let w = instruction;
    match form {
        RiscvForm::I => if (w / 0x1000) % 8 == 1 || (w / 0x1000) % 8 == 5 {
            spec_sign_extension(w / 0x10_0000, 4)
        } else {
            spec_sign_extension(w / 0x10_0000, 11)
        },
        RiscvForm::S => spec_sign_extension(
            ((w / 0x200_0000) * 0x20 + (w / 0x80) % 0x20) as u32,
            11,
        ),
        RiscvForm::B => spec_sign_extension(
            ((w / 0x8000_0000) * 0x1000 + ((w / 0x80) % 2) * 0x800 + ((w / 0x200_0000) % 0x40)
                * 0x20 + ((w / 0x100) % 0x10) * 2) as u32,
            12,
        ),
        RiscvForm::U => (w - w % 0x1000) as u32,
        RiscvForm::J => spec_sign_extension(
            ((w / 0x8000_0000) * 0x10_0000 + ((w / 0x1000) % 0x100) * 0x1000 + ((w / 0x10_0000)
                % 2) * 0x800 + ((w / 0x20_0000) % 0x400) * 2) as u32,
            20,
        ),
        RiscvForm::R => 0,
    }
}

/// The parts of an immediate, put together by weight as `spec_immediate` does, are the bit
/// fields of the word moved to their places: bits 31 to 25 over bits 11 to 7 in the layout S;
/// bit 31, bit 7, bits 30 to 25 and bits 11 to 8 over a zero bit in the layout B; bits 31 to 12
/// over twelve zero bits in the layout U; bit 31, bits 19 to 12, bit 20 and bits 30 to 21 over a
/// zero bit in the layout J.
pub proof fn lemma_immediate_layout(w: u32)
    ensures
        (w / 0x200_0000) * 0x20 + (w / 0x80) % 0x20 == ((w >> 25) << 5) | ((w >> 7) & 0x1f),
        (w / 0x8000_0000) * 0x1000 + ((w / 0x80) % 2) * 0x800 + ((w / 0x200_0000) % 0x40) * 0x20
            + ((w / 0x100) % 0x10) * 2 == ((w >> 31) << 12) | (((w >> 7) & 1) << 11) | (((w >> 25)
            & 0x3f) << 5) | (((w >> 8) & 0xf) << 1),
        w - w % 0x1000 == (w >> 12) << 12,
        (w / 0x8000_0000) * 0x10_0000 + ((w / 0x1000) % 0x100) * 0x1000 + ((w / 0x10_0000) % 2)
            * 0x800 + ((w / 0x20_0000) % 0x400) * 2 == ((w >> 31) << 20) | (((w >> 12) & 0xff)
            << 12) | (((w >> 20) & 1) << 11) | (((w >> 21) & 0x3ff) << 1),
{
    assert((w / 0x200_0000) * 0x20 + (w / 0x80) % 0x20 == ((w >> 25) << 5) | ((w >> 7) & 0x1f))
        by (bit_vector);
    assert((w / 0x8000_0000) * 0x1000 + ((w / 0x80) % 2) * 0x800 + ((w / 0x200_0000) % 0x40)
        * 0x20 + ((w / 0x100) % 0x10) * 2 == ((w >> 31) << 12) | (((w >> 7) & 1) << 11) | (((w
        >> 25) & 0x3f) << 5) | (((w >> 8) & 0xf) << 1)) by (bit_vector);
    assert(w - w % 0x1000 == (w >> 12) << 12) by (bit_vector);
    assert((w / 0x8000_0000) * 0x10_0000 + ((w / 0x1000) % 0x100) * 0x1000 + ((w / 0x10_0000)
        % 2) * 0x800 + ((w / 0x20_0000) % 0x400) * 2 == ((w >> 31) << 20) | (((w >> 12) & 0xff)
        << 12) | (((w >> 20) & 1) << 11) | (((w >> 21) & 0x3ff) << 1)) by (bit_vector);
}

/// Reconstructs the immediate operand of an instruction word, sign-extended to 32 bits.
pub fn immediate(instruction: u32, form: &RiscvForm) -> (imm: u32)
    ensures
        imm == spec_immediate(instruction, *form),
{
    proof {
        lemma_field_shifts(instruction);
    }
    let funct3: u32 = (instruction >> 12) % 8;

    match form {
        RiscvForm::I => match funct3 {
            0b001 | 0b101 => sign_extension(instruction >> 20, 4),
            _ => sign_extension(instruction >> 20, 11),
        },
        RiscvForm::S => sign_extension((instruction >> 25) * 32 + (instruction >> 7) % 32, 11),
        RiscvForm::B => {
            let imm11: u32 = (instruction >> 7) % 2;
            let imm41: u32 = (instruction >> 8) % 16;
            let imm105: u32 = (instruction >> 25) % 64;
            let imm12: u32 = instruction >> 31;
            let value: u32 = imm12 * 0x1000 + imm11 * 0x800 + imm105 * 0x20 + imm41 * 2;
            sign_extension(value, 12)
        },
        RiscvForm::U => instruction - (instruction % 0x1000),
        RiscvForm::J => {
            let imm1912: u32 = (instruction >> 12) % 256;
            let imm11: u32 = (instruction >> 20) % 2;
            let imm101: u32 = (instruction >> 21) % 1024;
            let imm20: u32 = instruction >> 31;
            let value: u32 = imm20 * 0x10_0000 + imm1912 * 0x1000 + imm11 * 0x800 + imm101 * 2;
            sign_extension(value, 20)
        },
        _ => 0,
    }
}

/// Bits 0 to 6 of an instruction word.
pub open spec fn spec_opecode(instruction: u32) -> u8 {
    (instruction % 0x80) as u8
}

/// Bits 12 to 14 of an instruction word.
pub open spec fn spec_funct3(instruction: u32) -> u8 {
    ((instruction / 0x1000) % 8) as u8
}

/// Bits 25 to 31 of an instruction word.
pub open spec fn spec_funct7(instruction: u32) -> u8 {
    (instruction / 0x200_0000) as u8
}

/// Bits 7 to 11 of an instruction word: the destination register.
pub open spec fn spec_rd(instruction: u32) -> u8 {
    ((instruction / 0x80) % 0x20) as u8
}

/// Bits 15 to 19 of an instruction word: the first source register.
pub open spec fn spec_rs1(instruction: u32) -> u8 {
    ((instruction / 0x8000) % 0x20) as u8
}

/// Bits 20 to 24 of an instruction word: the second source register.
pub open spec fn spec_rs2(instruction: u32) -> u8 {
    ((instruction / 0x10_0000) % 0x20) as u8
}

/// The instruction that a word encodes, or the reason why it encodes none.
pub open spec fn spec_decode(instruction: u32) -> Result<Instruction, ProcessorError> {
    let funct7 = spec_funct7(instruction);
    let funct3 = spec_funct3(instruction);
    let opecode = spec_opecode(instruction);
    match InstructionCode::spec_try_from((funct7, funct3, opecode)) {
        Err(error) => Err(error),
        Ok(code) => match RiscvForm::spec_try_from(opecode) {
            Err(error) => Err(error),
            Ok(form) => Ok(
                Instruction {
                    raw: instruction,
                    code,
                    form,
                    rs1: spec_rs1(instruction),
                    rs2: spec_rs2(instruction),
                    rd: spec_rd(instruction),
                    imm: spec_immediate(instruction, form),
                    is_halt: instruction == 0,
                },
            ),
        },
    }
}

/// Decodes an instruction word. The result depends on the word alone.
pub fn decode(instruction: u32) -> (r: Result<Instruction, ProcessorError>)
    ensures
        r == spec_decode(instruction),
{
    proof {
        lemma_field_shifts(instruction);
    }
    let funct7: u8 = ((instruction >> 25) % 128) as u8;
    let funct3: u8 = ((instruction >> 12) % 8) as u8;
    let opecode: u8 = (instruction % 128) as u8;

    let code = InstructionCode::try_from((funct7, funct3, opecode))?;

    let form = RiscvForm::try_from(opecode)?;

    let rd: u8 = ((instruction >> 7) % 32) as u8;
    let rs1: u8 = ((instruction >> 15) % 32) as u8;
    let rs2: u8 = ((instruction >> 20) % 32) as u8;
    let registers = [rs1, rs2, rd];

    let imm = immediate(instruction, &form);

    Ok(Instruction::new(instruction, code, form, registers, imm))
}

/// Every instruction that decodes names registers below 32, records the word it came from, and
/// is no halt marker: the all-zero word does not decode.
pub proof fn lemma_decode_fields(instruction: u32)
    ensures
        spec_decode(instruction) matches Ok(inst) ==> {
            &&& inst.raw == instruction
            &&& inst.rs1 < 32
            &&& inst.rs2 < 32
            &&& inst.rd < 32
            &&& !inst.is_halt
        },
        instruction == 0 ==> spec_decode(instruction) is Err,
{
}

} // verus!
