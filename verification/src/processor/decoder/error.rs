use vstd::prelude::*;
use vstd::string::StringExecFns;

use crate::processor::ProcessorErrorTrait;
use crate::text::{push_decimal, spec_decimal};

verus! {

/// Why a 32-bit word is not an instruction of the machine.
#[derive(Debug)]
pub enum InstructionDecodingErrorType {
    UndefinedBranchOption(u8),
    UndefinedByteWideOption(u8),
    UndefinedRiscvForm,
    StoreMustBeSigned,
    InvalidAluOperation,
}

impl InstructionDecodingErrorType {
    /// The text of the reason.
    pub open spec fn spec_to_string(&self) -> Seq<char> {
        match self {
            Self::UndefinedBranchOption(opt) => "get undefined branch option: "@ + spec_decimal(
                *opt as nat,
            ),
            Self::UndefinedByteWideOption(opt) => "get undefined byte-wide option: "@
                + spec_decimal(*opt as nat),
            Self::UndefinedRiscvForm => "get undefined riscv form"@,
            Self::StoreMustBeSigned => "load instruction must be signed"@,
            Self::InvalidAluOperation => "invalid (funct7, funct3) value given"@,
        }
    }

    pub fn to_string(&self) -> (text: String)
        ensures
            text@ == self.spec_to_string(),
    {
        match self {
            Self::UndefinedBranchOption(opt) => {
                let mut text = String::from_str("get undefined branch option: ");
                push_decimal(&mut text, *opt as u64);
                text
            },
            Self::UndefinedByteWideOption(opt) => {
                let mut text = String::from_str("get undefined byte-wide option: ");
                push_decimal(&mut text, *opt as u64);
                text
            },
            Self::UndefinedRiscvForm => String::from_str("get undefined riscv form"),
            Self::StoreMustBeSigned => String::from_str("load instruction must be signed"),
            Self::InvalidAluOperation => String::from_str("invalid (funct7, funct3) value given"),
        }
    }
}

/// A fault of the decoder.
#[derive(Debug)]
pub struct InstructionDecodingError {
    pub error_type: InstructionDecodingErrorType,
}

impl InstructionDecodingError {
    pub fn new(error_type: InstructionDecodingErrorType) -> (error: Box<Self>)
        ensures
            *error == (InstructionDecodingError { error_type }),
    {
        let error = Self { error_type };
        Box::new(error)
    }

    pub fn to_string(&self) -> (text: String)
        ensures
            text@ == self.spec_form(),
    {
        self.form()
    }
}

impl ProcessorErrorTrait for InstructionDecodingError {
    open spec fn spec_form(&self) -> Seq<char> {
        "decode instruction is failed - "@ + self.error_type.spec_to_string()
    }

    fn form(&self) -> (text: String) {
        let mut text = String::from_str("decode instruction is failed - ");
        text.append(self.error_type.to_string().as_str());
        text
    }
}

} // verus!
