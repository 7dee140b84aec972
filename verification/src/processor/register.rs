use vstd::prelude::*;
use vstd::std_specs::convert::TryFromSpecImpl;
use vstd::string::StringExecFns;

use super::decoder::instruction::RiscvInstruction;
use super::{ProcessorError, ProcessorErrorTrait};
use crate::text::{push_decimal, spec_decimal};

verus! {

/// The conventional names of the 32 registers, in the order of their numbers.
#[derive(Clone, Copy, Debug, PartialEq, Eq, Structural)]
pub enum RegisterAlias {
    Zero,
    RA,
    SP,
    GP,
    TP,
    T0,
    T1,
    T2,
    S0,
    S1,
    A0,
    A1,
    A2,
    A3,
    A4,
    A5,
    A6,
    A7,
    S2,
    S3,
    S4,
    S5,
    S6,
    S7,
    S8,
    S9,
    S10,
    S11,
    T3,
    T4,
    T5,
    T6,
}

/// The fault that the register file raises for an index it does not have.
pub open spec fn register_out_of_bounds() -> ProcessorError {
    ProcessorError::Register(
        Box::new(RegisterError { error_type: RegisterErrorType::AddressOutOfBounds }),
    )
}

impl RegisterAlias {
    /// The name of register `value`.
    pub open spec fn spec_try_from(value: u8) -> Result<Self, ProcessorError> {
        if value == 0 {
            Ok(RegisterAlias::Zero)
        } else if value == 1 {
            Ok(RegisterAlias::RA)
        } else if value == 2 {
            Ok(RegisterAlias::SP)
        } else if value == 3 {
            Ok(RegisterAlias::GP)
        } else if value == 4 {
            Ok(RegisterAlias::TP)
        } else if value == 5 {
            Ok(RegisterAlias::T0)
        } else if value == 6 {
            Ok(RegisterAlias::T1)
        } else if value == 7 {
            Ok(RegisterAlias::T2)
        } else if value == 8 {
            Ok(RegisterAlias::S0)
        } else if value == 9 {
            Ok(RegisterAlias::S1)
        } else if value == 10 {
            Ok(RegisterAlias::A0)
        } else if value == 11 {
            Ok(RegisterAlias::A1)
        } else if value == 12 {
            Ok(RegisterAlias::A2)
        } else if value == 13 {
            Ok(RegisterAlias::A3)
        } else if value == 14 {
            Ok(RegisterAlias::A4)
        } else if value == 15 {
            Ok(RegisterAlias::A5)
        } else if value == 16 {
            Ok(RegisterAlias::A6)
        } else if value == 17 {
            Ok(RegisterAlias::A7)
        } else if value == 18 {
            Ok(RegisterAlias::S2)
        } else if value == 19 {
            Ok(RegisterAlias::S3)
        } else if value == 20 {
            Ok(RegisterAlias::S4)
        } else if value == 21 {
            Ok(RegisterAlias::S5)
        } else if value == 22 {
            Ok(RegisterAlias::S6)
        } else if value == 23 {
            Ok(RegisterAlias::S7)
        } else if value == 24 {
            Ok(RegisterAlias::S8)
        } else if value == 25 {
            Ok(RegisterAlias::S9)
        } else if value == 26 {
            Ok(RegisterAlias::S10)
        } else if value == 27 {
            Ok(RegisterAlias::S11)
        } else if value == 28 {
            Ok(RegisterAlias::T3)
        } else if value == 29 {
            Ok(RegisterAlias::T4)
        } else if value == 30 {
            Ok(RegisterAlias::T5)
        } else if value == 31 {
            Ok(RegisterAlias::T6)
        } else {
            Err(register_out_of_bounds())
        }
    }
}

impl RiscvInstruction for RegisterAlias {
    open spec fn has_assembly(&self) -> bool {
        true
    }

    open spec fn spec_assembly(&self) -> Seq<char> {
        match self {
            RegisterAlias::Zero => "zero"@,
            RegisterAlias::RA => "ra"@,
            RegisterAlias::SP => "sp"@,
            RegisterAlias::GP => "gp"@,
            RegisterAlias::TP => "tp"@,
            RegisterAlias::T0 => "t0"@,
            RegisterAlias::T1 => "t1"@,
            RegisterAlias::T2 => "t2"@,
            RegisterAlias::S0 => "s0"@,
            RegisterAlias::S1 => "s1"@,
            RegisterAlias::A0 => "a0"@,
            RegisterAlias::A1 => "a1"@,
            RegisterAlias::A2 => "a2"@,
            RegisterAlias::A3 => "a3"@,
            RegisterAlias::A4 => "a4"@,
            RegisterAlias::A5 => "a5"@,
            RegisterAlias::A6 => "a6"@,
            RegisterAlias::A7 => "a7"@,
            RegisterAlias::S2 => "s2"@,
            RegisterAlias::S3 => "s3"@,
            RegisterAlias::S4 => "s4"@,
            RegisterAlias::S5 => "s5"@,
            RegisterAlias::S6 => "s6"@,
            RegisterAlias::S7 => "s7"@,
            RegisterAlias::S8 => "s8"@,
            RegisterAlias::S9 => "s9"@,
            RegisterAlias::S10 => "s10"@,
            RegisterAlias::S11 => "s11"@,
            RegisterAlias::T3 => "t3"@,
            RegisterAlias::T4 => "t4"@,
            RegisterAlias::T5 => "t5"@,
            RegisterAlias::T6 => "t6"@,
        }
    }

    fn assembly(&self) -> (text: String) {
        String::from_str(match self {
                RegisterAlias::Zero => "zero",
                RegisterAlias::RA => "ra",
                RegisterAlias::SP => "sp",
                RegisterAlias::GP => "gp",
                RegisterAlias::TP => "tp",
                RegisterAlias::T0 => "t0",
                RegisterAlias::T1 => "t1",
                RegisterAlias::T2 => "t2",
                RegisterAlias::S0 => "s0",
                RegisterAlias::S1 => "s1",
                RegisterAlias::A0 => "a0",
                RegisterAlias::A1 => "a1",
                RegisterAlias::A2 => "a2",
                RegisterAlias::A3 => "a3",
                RegisterAlias::A4 => "a4",
                RegisterAlias::A5 => "a5",
                RegisterAlias::A6 => "a6",
                RegisterAlias::A7 => "a7",
                RegisterAlias::S2 => "s2",
                RegisterAlias::S3 => "s3",
                RegisterAlias::S4 => "s4",
                RegisterAlias::S5 => "s5",
                RegisterAlias::S6 => "s6",
                RegisterAlias::S7 => "s7",
                RegisterAlias::S8 => "s8",
                RegisterAlias::S9 => "s9",
                RegisterAlias::S10 => "s10",
                RegisterAlias::S11 => "s11",
                RegisterAlias::T3 => "t3",
                RegisterAlias::T4 => "t4",
                RegisterAlias::T5 => "t5",
                RegisterAlias::T6 => "t6",
        })
    }
}

impl RegisterAlias {
    /// The spaces that fill the name up to eight columns.
    pub open spec fn spec_padding(&self) -> Seq<char> {
        match self {
            RegisterAlias::Zero => "    "@,
            RegisterAlias::S10 | RegisterAlias::S11 => "     "@,
            _ => "      "@,
        }
    }

    pub fn padding(&self) -> (text: &'static str)
        ensures
            text@ == self.spec_padding(),
    {
        match self {
            RegisterAlias::Zero => "    ",
            RegisterAlias::S10 | RegisterAlias::S11 => "     ",
            _ => "      ",
        }
    }

    pub fn to_string(&self) -> (text: String)
        ensures
            text@ == self.spec_assembly(),
    {
        self.assembly()
    }
}

impl RegisterAlias {
    /// The name of register `value`, or the fault of the register file if there is none.
    pub fn of_index(value: u8) -> (r: Result<Self, ProcessorError>)
        ensures
            r == Self::spec_try_from(value),
    {
        if value < 32 {
            let alias = match value {
                0 => RegisterAlias::Zero,
                1 => RegisterAlias::RA,
                2 => RegisterAlias::SP,
                3 => RegisterAlias::GP,
                4 => RegisterAlias::TP,
                5 => RegisterAlias::T0,
                6 => RegisterAlias::T1,
                7 => RegisterAlias::T2,
                8 => RegisterAlias::S0,
                9 => RegisterAlias::S1,
                10 => RegisterAlias::A0,
                11 => RegisterAlias::A1,
                12 => RegisterAlias::A2,
                13 => RegisterAlias::A3,
                14 => RegisterAlias::A4,
                15 => RegisterAlias::A5,
                16 => RegisterAlias::A6,
                17 => RegisterAlias::A7,
                18 => RegisterAlias::S2,
                19 => RegisterAlias::S3,
                20 => RegisterAlias::S4,
                21 => RegisterAlias::S5,
                22 => RegisterAlias::S6,
                23 => RegisterAlias::S7,
                24 => RegisterAlias::S8,
                25 => RegisterAlias::S9,
                26 => RegisterAlias::S10,
                27 => RegisterAlias::S11,
                28 => RegisterAlias::T3,
                29 => RegisterAlias::T4,
                30 => RegisterAlias::T5,
                _ => RegisterAlias::T6,
            };
            Ok(alias)
        } else {
            let error_type = RegisterErrorType::AddressOutOfBounds;
            Err(ProcessorError::Register(RegisterError::new(error_type)))
        }
    }
}

impl TryFrom<u8> for RegisterAlias {
    type Error = ProcessorError;

    fn try_from(value: u8) -> (r: Result<Self, Self::Error>) {
        Self::of_index(value)
    }
}

impl TryFromSpecImpl<u8> for RegisterAlias {
    open spec fn obeys_try_from_spec() -> bool {
        true
    }

    open spec fn try_from_spec(value: u8) -> Result<Self, Self::Error> {
        Self::spec_try_from(value)
    }
}

/// A name and its padding fill a column of eight.
pub proof fn lemma_name_column(alias: RegisterAlias)
    ensures
        (alias.spec_assembly() + alias.spec_padding()).len() == 8,
{
    reveal_strlit("zero");
    reveal_strlit("ra");
    reveal_strlit("sp");
    reveal_strlit("gp");
    reveal_strlit("tp");
    reveal_strlit("t0");
    reveal_strlit("t1");
    reveal_strlit("t2");
    reveal_strlit("s0");
    reveal_strlit("s1");
    reveal_strlit("a0");
    reveal_strlit("a1");
    reveal_strlit("a2");
    reveal_strlit("a3");
    reveal_strlit("a4");
    reveal_strlit("a5");
    reveal_strlit("a6");
    reveal_strlit("a7");
    reveal_strlit("s2");
    reveal_strlit("s3");
    reveal_strlit("s4");
    reveal_strlit("s5");
    reveal_strlit("s6");
    reveal_strlit("s7");
    reveal_strlit("s8");
    reveal_strlit("s9");
    reveal_strlit("s10");
    reveal_strlit("s11");
    reveal_strlit("t3");
    reveal_strlit("t4");
    reveal_strlit("t5");
    reveal_strlit("t6");
    reveal_strlit("    ");
    reveal_strlit("     ");
    reveal_strlit("      ");
}

/// The 32 registers. Register 0 reads as written at construction: stores to it are dropped.
pub struct Register {
    mem: [u32; 32],
}

impl Register {
    /// The values of the registers, by number.
    pub closed spec fn view(&self) -> Seq<u32> {
        self.mem@
    }

    /// A register file always has 32 registers.
    pub proof fn lemma_len(&self)
        ensures
            self@.len() == 32,
    {
    }

    /// A register file with every register zero.
    pub fn new() -> (r: Self)
        ensures
            r@ == Seq::new(32, |i: int| 0u32),
    {
        let r = Self { mem: [0; 32] };
        assert(r@ =~= Seq::new(32, |i: int| 0u32));
        r
    }

    /// What reading register `address` yields.
    pub open spec fn spec_read(registers: Seq<u32>, address: u8) -> Result<u32, ProcessorError> {
        if address < 32 {
            Ok(registers[address as int])
        } else {
            Err(register_out_of_bounds())
        }
    }

    /// The registers after a store of `value` to register `address`.
    pub open spec fn spec_write(registers: Seq<u32>, address: u8, value: u32) -> Seq<u32> {
        if 0 < address < 32 {
            registers.update(address as int, value)
        } else {
            registers
        }
    }

    /// The line that reports register `address` with the value `value`: its name in a column
    /// of eight, a colon, and the value in decimal.
    pub open spec fn spec_line(address: u8, value: u32) -> Seq<char> {
        let alias = RegisterAlias::spec_try_from(address).unwrap();
        " "@ + alias.spec_assembly() + alias.spec_padding() + ": "@ + spec_decimal(value as nat)
    }

    /// One line for each register, in the order of their numbers.
    pub fn logging(&self) -> (lines: Vec<String>)
        ensures
            lines@.len() == 32,
            forall|i: int|
                0 <= i < 32 ==> (#[trigger] lines@[i])@ == Self::spec_line(i as u8, self@[i]),
    {
        let mut lines: Vec<String> = Vec::new();
        let mut i: u8 = 0;
        while i < 32
            invariant
                i <= 32,
                lines@.len() == i,
                forall|k: int|
                    0 <= k < i ==> (#[trigger] lines@[k])@ == Self::spec_line(k as u8, self@[k]),
            decreases 32 - i,
        {
            let mut line = String::from_str(" ");
            match RegisterAlias::of_index(i) {
                Ok(alias) => {
                    line.append(alias.assembly().as_str());
                    line.append(alias.padding());
                },
                Err(_) => {},
            }
            line.append(": ");
            push_decimal(&mut line, self.mem[i as usize] as u64);
            lines.push(line);
            i += 1;
        }
        lines
    }

    /// Reads register `address`.
    pub fn read(&self, address: u8) -> (r: Result<u32, ProcessorError>)
        ensures
            r == Self::spec_read(self@, address),
    {
        if address < 32 {
            Ok(self.mem[address as usize])
        } else {
            let error_type = RegisterErrorType::AddressOutOfBounds;
            Err(ProcessorError::Register(RegisterError::new(error_type)))
        }
    }

    /// Stores `value` to register `address`; a store to register 0 is dropped.
    pub fn write(&mut self, address: u8, value: u32) -> (r: Result<(), ProcessorError>)
        ensures
            final(self)@ == Self::spec_write(old(self)@, address, value),
            address < 32 ==> r == Ok::<(), ProcessorError>(()),
            address >= 32 ==> r == Err::<(), ProcessorError>(register_out_of_bounds()),
    {
        if address < 32 {
            if 0 < address {
                self.mem[address as usize] = value;
            }
            Ok(())
        } else {
            let error_type = RegisterErrorType::AddressOutOfBounds;
            Err(ProcessorError::Register(RegisterError::new(error_type)))
        }
    }
}

/// Why an access to the register file failed.
#[derive(Debug)]
pub enum RegisterErrorType {
    AddressOutOfBounds,
}

impl RegisterErrorType {
    /// The text of the reason.
    pub open spec fn spec_to_string(&self) -> Seq<char> {
        match self {
            Self::AddressOutOfBounds => "violate address bounds by memory access"@,
        }
    }

    pub fn to_string(&self) -> (text: String)
        ensures
            text@ == self.spec_to_string(),
    {
        match self {
            Self::AddressOutOfBounds => String::from_str("violate address bounds by memory access"),
        }
    }
}

/// A fault of the register file.
#[derive(Debug)]
pub struct RegisterError {
    pub error_type: RegisterErrorType,
}

impl RegisterError {
    fn new(error_type: RegisterErrorType) -> (error: Box<Self>)
        ensures
            *error == (RegisterError { error_type }),
    {
        let error = Self { error_type };
        Box::new(error)
    }

    pub fn to_string(&self) -> (text: String)
        ensures
            text@ == self.spec_form(),
    {
        self.form()
    }
}

impl ProcessorErrorTrait for RegisterError {
    open spec fn spec_form(&self) -> Seq<char> {
        "register access is failed  - "@ + self.error_type.spec_to_string()
    }

    fn form(&self) -> (text: String) {
        let mut text = String::from_str("register access is failed  - ");
        text.append(self.error_type.to_string().as_str());
        text
    }
}

} // verus!
