pub mod unit;

use vstd::prelude::*;

use self::unit::{alu, branch_operation, spec_alu, spec_branch_operation};
use super::decoder::instruction::{Instruction, InstructionCode};
use crate::word::wrapping_sum;

verus! {

/// The value for the destination register and the next program counter that `inst` yields from
/// its two source values and the program counter it was fetched at.
pub open spec fn spec_execute(inst: Instruction, rs1: u32, rs2: u32, pc: u32) -> (u32, u32) {
    let next = wrapping_sum(pc, 4);
    match inst.code {
        InstructionCode::Ope(code) => (spec_alu(code, rs1, rs2), next),
        InstructionCode::OpeI(code) => (spec_alu(code, rs1, inst.imm), next),
        InstructionCode::Lui => (inst.imm, next),
        InstructionCode::Auipc => (wrapping_sum(pc, inst.imm), next),
        InstructionCode::Branch(option) => (
            0,
            if spec_branch_operation(option, rs1, rs2) {
                wrapping_sum(pc, inst.imm)
            } else {
                next
            },
        ),
        InstructionCode::Jal => (next, wrapping_sum(pc, inst.imm)),
        InstructionCode::Jalr => (next, wrapping_sum(rs1, inst.imm)),
        InstructionCode::Load(_) => (0, next),
        InstructionCode::Store(_) => (0, next),
    }
}

/// The execute stage: the value for `rd` and the next program counter.
pub fn execute(inst: &Instruction, rs1: u32, rs2: u32, pc: u32) -> (r: (u32, u32))
    ensures
        r == spec_execute(*inst, rs1, rs2, pc),
{
    let next: u32 = pc.wrapping_add(4);
    match &inst.code {
        InstructionCode::Ope(code) => (alu(code, rs1, rs2), next),
        InstructionCode::OpeI(code) => (alu(code, rs1, inst.imm), next),
        InstructionCode::Lui => (inst.imm, next),
        InstructionCode::Auipc => (pc.wrapping_add(inst.imm), next),
        InstructionCode::Branch(option) => {
            let next_pc: u32 = if branch_operation(option, rs1, rs2) {
                pc.wrapping_add(inst.imm)
            } else {
                next
            };

            (0, next_pc)
        },
        InstructionCode::Jal => (next, pc.wrapping_add(inst.imm)),
        InstructionCode::Jalr => (next, rs1.wrapping_add(inst.imm)),
        _ => (0, next),
    }
}

} // verus!
