use vstd::arithmetic::power2::pow2;
use vstd::prelude::*;

use crate::processor::decoder::instruction::{AluCode, BranchOption};
use crate::word::{
    as_signed, exp2, lemma_exp2_is_pow2, lemma_exp2_shift, signed, wrapping_difference,
    wrapping_sum,
};

verus! {

/// What the arithmetic and logic unit computes: sums, differences and shifts modulo the word
/// size, comparisons as 0 or 1, and the bitwise operations. A shift moves by `rhs` modulo 32.
pub open spec fn spec_alu(code: AluCode, lhs: u32, rhs: u32) -> u32 {
    let amount = rhs % 32;
    match code {
        AluCode::Add => wrapping_sum(lhs, rhs),
        AluCode::Sub => wrapping_difference(lhs, rhs),
        AluCode::Slt => if signed(lhs) < signed(rhs) {
            1
        } else {
            0
        },
        AluCode::Sltu => if lhs < rhs {
            1
        } else {
            0
        },
        AluCode::Sll => ((lhs * exp2(amount)) % 0x1_0000_0000) as u32,
        AluCode::Srl => (lhs as int / exp2(amount) as int) as u32,
        AluCode::Sra => ((signed(lhs) / exp2(amount) as int) % 0x1_0000_0000) as u32,
        AluCode::Xor => lhs ^ rhs,
        AluCode::Or => lhs | rhs,
        AluCode::And => lhs & rhs,
    }
}

/// Shifting left multiplies by a power of two, modulo the word size.
proof fn lemma_shift_left(lhs: u32, amount: u32)
    by (bit_vector)
    requires
        amount < 32,
    ensures
        lhs << amount == (lhs as u64 * exp2(amount)) % 0x1_0000_0000,
{
}

/// The arithmetic shift of a word agrees with the logical one when the top bit is clear, and
/// fills the vacated bits with ones when it is set.
proof fn lemma_shift_arithmetic(lhs: u32, amount: u32)
    by (bit_vector)
    requires
        amount < 32,
    ensures
        lhs < 0x8000_0000u32 ==> ((lhs as i32) >> amount) as u32 == lhs >> amount,
        lhs >= 0x8000_0000u32 ==> (((lhs as i32) >> amount) as u32) as u64 == (lhs >> amount) as u64
            + 0x1_0000_0000u64 - exp2((32 - amount) as u32),
{
}

/// Dividing a negative word by a power of two, rounding down, as a word again.
proof fn lemma_signed_quotient(lhs: u32, amount: u32)
    requires
        amount < 32,
        lhs >= 0x8000_0000u32,
    ensures
        (signed(lhs) / exp2(amount) as int) % 0x1_0000_0000 == lhs as int / exp2(amount) as int
            + 0x1_0000_0000 - exp2((32 - amount) as u32),
{
    let p = exp2(amount) as int;
    let q = exp2((32 - amount) as u32) as int;
    assert(p * q == 0x1_0000_0000);
    let x = lhs as int;
    assert((x - p * q) / p == x / p - q) by (nonlinear_arith)
        requires
            p > 0,
    ;
    assert(0 <= x / p < q) by (nonlinear_arith)
        requires
            p > 0,
            0 <= x < p * q,
    ;
}

/// The arithmetic and logic unit.
pub fn alu(code: &AluCode, lhs: u32, rhs: u32) -> (r: u32)
    ensures
        r == spec_alu(*code, lhs, rhs),
{
    let amount: u32 = rhs % 32;
    proof {
        lemma_shift_left(lhs, amount);
        lemma_exp2_shift(lhs, amount);
        lemma_shift_arithmetic(lhs, amount);
    }
    match code {
        AluCode::Add => lhs.wrapping_add(rhs),
        AluCode::Sub => lhs.wrapping_sub(rhs),
        AluCode::Slt => if as_signed(lhs) < as_signed(rhs) {
            1
        } else {
            0
        },
        AluCode::Sltu => if lhs < rhs {
            1
        } else {
            0
        },
        AluCode::Sll => lhs << amount,
        AluCode::Srl => lhs >> amount,
        AluCode::Sra => {
            proof {
                if lhs >= 0x8000_0000u32 {
                    lemma_signed_quotient(lhs, amount);
                }
            }
            #[verifier::truncate]
            ((as_signed(lhs) >> amount) as u32)
        },
        AluCode::Xor => lhs ^ rhs,
        AluCode::Or => lhs | rhs,
        AluCode::And => lhs & rhs,
    }
}

/// What the unit computes is the sum, the difference, the product with a power of two or the
/// quotient by one, reduced modulo the word size; for the arithmetic shift the quotient of the
/// signed reading, rounded down.
pub proof fn lemma_alu_is_modular(code: AluCode, lhs: u32, rhs: u32)
    ensures
        code == AluCode::Add ==> spec_alu(code, lhs, rhs) == (lhs + rhs) % 0x1_0000_0000,
        code == AluCode::Sub ==> spec_alu(code, lhs, rhs) == (lhs - rhs) % 0x1_0000_0000,
        code == AluCode::Sll ==> spec_alu(code, lhs, rhs) == (lhs * pow2((rhs % 32) as nat))
            % 0x1_0000_0000,
        code == AluCode::Srl ==> spec_alu(code, lhs, rhs) == lhs as int / pow2(
            (rhs % 32) as nat,
        ) as int,
        code == AluCode::Sra ==> spec_alu(code, lhs, rhs) == (signed(lhs) / pow2(
            (rhs % 32) as nat,
        ) as int) % 0x1_0000_0000,
        code == AluCode::Slt ==> spec_alu(code, lhs, rhs) == if signed(lhs) < signed(rhs) {
            1u32
        } else {
            0u32
        },
        code == AluCode::Sltu ==> spec_alu(code, lhs, rhs) == if lhs < rhs {
            1u32
        } else {
            0u32
        },
{
    let amount = (rhs % 32) as u32;
    lemma_exp2_is_pow2(amount);
    let p = exp2(amount) as int;
    assert(0 <= lhs as int / p <= lhs) by (nonlinear_arith)
        requires
            p >= 1,
    ;
}

/// The shifts of the unit are the shifts of the machine by the low five bits of `rhs`.
pub proof fn lemma_alu_shifts(lhs: u32, rhs: u32)
    ensures
        spec_alu(AluCode::Sll, lhs, rhs) == lhs << (rhs & 0x1f),
        spec_alu(AluCode::Srl, lhs, rhs) == lhs >> (rhs & 0x1f),
        spec_alu(AluCode::Sra, lhs, rhs) == ((lhs as i32) >> (rhs & 0x1f)) as u32,
{
    let amount = (rhs % 32) as u32;
    assert(rhs & 0x1f == rhs % 32) by (bit_vector);
    lemma_shift_left(lhs, amount);
    lemma_exp2_shift(lhs, amount);
    lemma_shift_arithmetic(lhs, amount);
    if lhs >= 0x8000_0000u32 {
        lemma_signed_quotient(lhs, amount);
    }
}

/// Whether a branch with the comparison `option` is taken.
pub open spec fn spec_branch_operation(option: BranchOption, rs1: u32, rs2: u32) -> bool {
    match option {
        BranchOption::Equal => rs1 == rs2,
        BranchOption::NotEqual => rs1 != rs2,
        BranchOption::GraterEqual => signed(rs1) >= signed(rs2),
        BranchOption::GraterEqualUnsigned => rs1 >= rs2,
        BranchOption::LessThan => signed(rs1) < signed(rs2),
        BranchOption::LessThanUnsigned => rs1 < rs2,
    }
}

/// The branch unit: whether the branch is taken.
pub fn branch_operation(option: &BranchOption, rs1: u32, rs2: u32) -> (taken: bool)
    ensures
        taken == spec_branch_operation(*option, rs1, rs2),
{
    match option {
        BranchOption::Equal => rs1 == rs2,
        BranchOption::NotEqual => rs1 != rs2,
        BranchOption::GraterEqual => as_signed(rs1) >= as_signed(rs2),
        BranchOption::GraterEqualUnsigned => rs1 >= rs2,
        BranchOption::LessThan => as_signed(rs1) < as_signed(rs2),
        BranchOption::LessThanUnsigned => rs1 < rs2,
    }
}

} // verus!
