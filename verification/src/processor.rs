pub mod decoder;
pub mod executer;
pub mod fetcher;
pub mod register;

use vstd::prelude::*;
use vstd::string::StringExecFns;

use self::decoder::error::InstructionDecodingError;
use self::decoder::instruction::{Instruction, InstructionCode};
use self::decoder::{decode, spec_decode};
use self::executer::{execute, spec_execute};
use self::fetcher::{
    spec_fetch, spec_load_hex, Fetcher, LoaderError, INSTRUCTION_MEMORY_INIT,
    INSTRUCTION_MEMORY_SIZE,
};
use self::register::{register_out_of_bounds, Register, RegisterError};
use crate::memory::{memory_out_of_bounds, MainMemory, MainMemoryError, DATA_MEMORY_SIZE};
use crate::text::{push_list, spec_list};
use crate::word::wrapping_sum;

verus! {

/// Every fault that a stage of the processor can raise.
#[derive(Debug)]
pub enum ProcessorError {
    Decode(Box<InstructionDecodingError>),
    Register(Box<RegisterError>),
    Memory(Box<MainMemoryError>),
    Loader(Box<LoaderError>),
}

/// What every fault of the processor offers: a line of text that says what failed.
pub trait ProcessorErrorTrait {
    /// The text of the fault.
    spec fn spec_form(&self) -> Seq<char>;

    fn form(&self) -> (text: String)
        ensures
            text@ == self.spec_form(),
    ;
}

impl ProcessorErrorTrait for ProcessorError {
    open spec fn spec_form(&self) -> Seq<char> {
        match self {
            ProcessorError::Decode(error) => error.spec_form(),
            ProcessorError::Register(error) => error.spec_form(),
            ProcessorError::Memory(error) => error.spec_form(),
            ProcessorError::Loader(error) => error.spec_form(),
        }
    }

    fn form(&self) -> (text: String) {
        match self {
            ProcessorError::Decode(error) => error.form(),
            ProcessorError::Register(error) => error.form(),
            ProcessorError::Memory(error) => error.form(),
            ProcessorError::Loader(error) => error.form(),
        }
    }
}

impl ProcessorError {
    pub fn to_string(&self) -> (text: String)
        ensures
            text@ == self.spec_form(),
    {
        self.form()
    }
}

/// The whole machine at a step boundary.
pub struct MachineState {
    pub pc: u32,
    pub imem: Seq<u32>,
    pub reg: Seq<u32>,
    pub dmem: Seq<u32>,
    pub halted: bool,
}

impl MachineState {
    /// The memories and the register file have their fixed sizes.
    pub open spec fn wf(self) -> bool {
        &&& self.imem.len() == INSTRUCTION_MEMORY_SIZE
        &&& self.reg.len() == 32
        &&& self.dmem.len() == DATA_MEMORY_SIZE
    }

    /// The machine at reset, with the instruction memory `imem`.
    pub open spec fn reset(imem: Seq<u32>) -> MachineState {
        MachineState {
            pc: INSTRUCTION_MEMORY_INIT as u32,
            imem,
            reg: Seq::new(32, |i: int| 0u32),
            dmem: Seq::new(DATA_MEMORY_SIZE as nat, |i: int| 0u32),
            halted: false,
        }
    }

    /// What the decoded instruction `inst` does to the machine: the state after it, and the
    /// fault that it raised, if any. A load or store goes to the data memory at `rs1 + imm`;
    /// everything but a branch and a store writes its result to `rd`; and the program counter
    /// moves to where the instruction sends it. A fault leaves the machine as it was.
    pub open spec fn perform(self, inst: Instruction) -> (
        MachineState,
        Result<(), ProcessorError>,
    ) {
        if inst.rs1 >= 32 || inst.rs2 >= 32 {
            (self, Err(register_out_of_bounds()))
        } else {
            let rs1 = self.reg[inst.rs1 as int];
            let rs2 = self.reg[inst.rs2 as int];
            let (rd, pc) = spec_execute(inst, rs1, rs2, self.pc);
            let address = wrapping_sum(rs1, inst.imm);
            match inst.code {
                InstructionCode::Load(option) => match MainMemory::spec_read(
                    self.dmem,
                    address,
                    option,
                ) {
                    Err(error) => (self, Err(error)),
                    Ok(loaded) => self.write_back(inst.rd, loaded, pc),
                },
                InstructionCode::Store(option) => if address / 4 < DATA_MEMORY_SIZE {
                    (
                        MachineState {
                            pc,
                            dmem: MainMemory::spec_write(self.dmem, address, rs2, option),
                            ..self
                        },
                        Ok(()),
                    )
                } else {
                    (self, Err(memory_out_of_bounds()))
                },
                InstructionCode::Branch(_) => (MachineState { pc, ..self }, Ok(())),
                _ => self.write_back(inst.rd, rd, pc),
            }
        }
    }

    /// The last two stages of a step that writes a register: `value` goes to register `rd`, then
    /// the program counter becomes `pc`.
    pub open spec fn write_back(self, rd: u8, value: u32, pc: u32) -> (
        MachineState,
        Result<(), ProcessorError>,
    ) {
        if rd < 32 {
            (MachineState { pc, reg: Register::spec_write(self.reg, rd, value), ..self }, Ok(()))
        } else {
            (self, Err(register_out_of_bounds()))
        }
    }

    /// The machine after it has run until it halts, a step raises a fault, or `fuel` steps are
    /// done, whichever comes first; with the number of steps done, or the fault.
    pub open spec fn run(self, fuel: nat) -> (MachineState, Result<nat, ProcessorError>)
        decreases fuel,
    {
        if self.halted || fuel == 0 {
            (self, Ok(0))
        } else {
            let (next, outcome) = self.step();
            match outcome {
                Err(error) => (next, Err(error)),
                Ok(_) => {
                    let (last, rest) = next.run((fuel - 1) as nat);
                    match rest {
                        Ok(steps) => (last, Ok(steps + 1)),
                        Err(error) => (last, Err(error)),
                    }
                },
            }
        }
    }

    /// One step of the machine: the state after it, and the fault that it raised, if any.
    ///
    /// The all-zero word halts the machine before it is decoded, and changes nothing else. A
    /// word that does not decode is a fault. The word `0x0000006f` halts the machine too, and is
    /// performed as the jump to itself that it encodes. Every other word is decoded and
    /// performed.
    pub open spec fn step(self) -> (MachineState, Result<(), ProcessorError>) {
        let word = spec_fetch(self.imem, self.pc);
        if word == 0 {
            (MachineState { halted: true, ..self }, Ok(()))
        } else {
            match spec_decode(word) {
                Err(error) => (self, Err(error)),
                Ok(inst) => (MachineState {
                    halted: self.halted || word == 0x0000_006f,
                    ..self
                }).perform(inst),
            }
        }
    }
}

/// The processor: fetcher, register file, data memory and the halt flag.
pub struct Processor {
    fetcher: Fetcher,
    register: Register,
    memory: MainMemory,
    is_halt: bool,
}

impl Processor {
    /// The machine that this processor holds.
    pub closed spec fn view(&self) -> MachineState {
        MachineState {
            pc: self.fetcher.spec_pc(),
            imem: self.fetcher@,
            reg: self.register@,
            dmem: self.memory@,
            halted: self.is_halt,
        }
    }

    /// A processor always holds a well-formed machine.
    pub proof fn lemma_wf(&self)
        ensures
            self@.wf(),
    {
        self.fetcher.lemma_len();
        self.register.lemma_len();
        self.memory.lemma_len();
    }

    /// The processor at reset, with an all-zero instruction memory.
    pub fn new() -> (cpu: Self)
        ensures
            cpu@ == MachineState::reset(Seq::new(INSTRUCTION_MEMORY_SIZE as nat, |i: int| 0u32)),
    {
        Self {
            fetcher: Fetcher::new(),
            register: Register::new(),
            memory: MainMemory::new(),
            is_halt: false,
        }
    }

    /// The processor at reset with the program that `lines` denote, one word per line, stored
    /// from the reset address on.
    pub fn init(lines: &Vec<String>) -> (r: Result<Self, ProcessorError>)
        ensures
            ({
                let (imem, outcome) = spec_load_hex(
                    Seq::new(INSTRUCTION_MEMORY_SIZE as nat, |i: int| 0u32),
                    lines.deep_view(),
                    INSTRUCTION_MEMORY_INIT as int / 4,
                );
                match r {
                    Ok(cpu) => outcome is Ok && cpu@ == MachineState::reset(imem),
                    Err(error) => outcome == Err::<(), ProcessorError>(error),
                }
            }),
    {
        let mut fetcher = Fetcher::new();
        fetcher.load_hex(lines, INSTRUCTION_MEMORY_INIT)?;

        let cpu = Self {
            fetcher,
            register: Register::new(),
            memory: MainMemory::new(),
            is_halt: false,
        };
        Ok(cpu)
    }

    /// Fetches, decodes and performs one instruction.
    pub fn step(&mut self) -> (r: Result<(), ProcessorError>)
        ensures
            (final(self)@, r) == old(self)@.step(),
    {
        // fetch
        let word = self.fetcher.fetch();

        if word == 0 {
            self.is_halt = true;
            return Ok(());
        }
        // decode

        let inst = decode(word)?;

        if word == 0x0000006f {
            self.is_halt = true;
        }
        self.perform(&inst)
    }

    /// Carries out a decoded instruction: register read, execution, memory access, register
    /// write and the update of the program counter.
    pub fn perform(&mut self, inst: &Instruction) -> (r: Result<(), ProcessorError>)
        ensures
            (final(self)@, r) == old(self)@.perform(*inst),
    {
        proof {
            self.lemma_wf();
        }
        let pc = self.fetcher.program_counter();

        // register read
        let rs1 = self.register.read(inst.rs1)?;
        let rs2 = self.register.read(inst.rs2)?;

        // execution
        let (rd, pc) = execute(inst, rs1, rs2, pc);

        // memory read/write, register write, update pc
        match &inst.code {
            InstructionCode::Load(opt) => {
                let loaded = self.memory.read(rs1.wrapping_add(inst.imm), opt)?;
                self.write_back(inst.rd, loaded, pc)
            },
            InstructionCode::Store(opt) => {
                self.memory.write(rs1.wrapping_add(inst.imm), rs2, opt)?;
                self.fetcher.update_program_counter(pc);
                Ok(())
            },
            InstructionCode::Branch(_) => {
                self.fetcher.update_program_counter(pc);
                Ok(())
            },
            _ => self.write_back(inst.rd, rd, pc),
        }
    }

    /// Writes `value` to register `rd`, then moves the program counter to `pc`.
    fn write_back(&mut self, rd: u8, value: u32, pc: u32) -> (r: Result<(), ProcessorError>)
        ensures
            (final(self)@, r) == old(self)@.write_back(rd, value, pc),
    {
        self.register.write(rd, value)?;
        self.fetcher.update_program_counter(pc);
        Ok(())
    }

    /// Whether the machine has halted.
    pub fn is_halt(&self) -> (halted: bool)
        ensures
            halted == self@.halted,
    {
        self.is_halt
    }

    /// The report of the machine: one line for each register, then the first ten words of the
    /// data memory as a list.
    pub fn logging(&self) -> (lines: Vec<String>)
        ensures
            lines@.len() == 33,
            forall|i: int|
                0 <= i < 32 ==> (#[trigger] lines@[i])@ == Register::spec_line(
                    i as u8,
                    self@.reg[i],
                ),
            lines@[32]@ == "main: "@ + spec_list(self@.dmem.subrange(0, 10)),
    {
        let mut lines = self.register.logging();
        let mem = self.memory.head(10);
        let mut line = String::from_str("main: ");
        push_list(&mut line, &mem);
        lines.push(line);
        lines
    }

    pub fn fetcher(&self) -> (fetcher: &Fetcher)
        ensures
            fetcher.spec_pc() == self@.pc,
            fetcher@ == self@.imem,
    {
        &self.fetcher
    }

    pub fn register(&self) -> (register: &Register)
        ensures
            register@ == self@.reg,
    {
        &self.register
    }

    pub fn memory(&self) -> (memory: &MainMemory)
        ensures
            memory@ == self@.dmem,
    {
        &self.memory
    }
}

/// A step keeps a well-formed machine well-formed, never changes register 0 or the
/// instruction memory, and never takes back a halt.
pub proof fn lemma_step_keeps(s: MachineState)
    requires
        s.wf(),
    ensures
        s.step().0.wf(),
        s.step().0.reg[0] == s.reg[0],
        s.step().0.imem == s.imem,
        s.halted ==> s.step().0.halted,
{
}

/// A step that raises a fault leaves the machine as it was: no register, no memory word and
/// not the program counter has changed.
pub proof fn lemma_fault_keeps_state(s: MachineState)
    requires
        s.wf(),
        s.step().1 is Err,
    ensures
        s.step().0 == s,
{
    let word = spec_fetch(s.imem, s.pc);
    assert(spec_decode(0x0000_006f) is Ok);
}

/// A run keeps a well-formed machine well-formed and never changes register 0; it ends in a
/// halt, in a fault, or with all its steps done.
pub proof fn lemma_run_keeps(s: MachineState, fuel: nat)
    requires
        s.wf(),
    ensures
        s.run(fuel).0.wf(),
        s.run(fuel).0.reg[0] == s.reg[0],
        s.run(fuel).1 matches Ok(steps) ==> steps <= fuel && (s.run(fuel).0.halted || steps
            == fuel),
    decreases fuel,
{
    if !s.halted && fuel > 0 {
        lemma_step_keeps(s);
        if s.step().1 is Ok {
            lemma_run_keeps(s.step().0, (fuel - 1) as nat);
        }
    }
}

} // verus!
