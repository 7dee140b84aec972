use vstd::prelude::*;

use super::processor::fetcher::{spec_load_hex, INSTRUCTION_MEMORY_INIT, INSTRUCTION_MEMORY_SIZE};
use super::processor::{MachineState, Processor, ProcessorError};

verus! {

/// The emulator: a processor and the loop that steps it.
pub struct Emulator {
    cpu: Processor,
}

/// The outcome of a run that had done `done` steps before: the steps are counted together.
pub open spec fn after_steps(
    run: (MachineState, Result<nat, ProcessorError>),
    done: nat,
) -> (MachineState, Result<nat, ProcessorError>) {
    match run.1 {
        Ok(steps) => (run.0, Ok(steps + done)),
        Err(error) => (run.0, Err(error)),
    }
}

impl Emulator {
    /// The machine that this emulator runs.
    pub closed spec fn view(&self) -> MachineState {
        self.cpu@
    }

    /// The emulator at reset, with an all-zero instruction memory.
    pub fn new() -> (emu: Self)
        ensures
            emu@ == MachineState::reset(Seq::new(INSTRUCTION_MEMORY_SIZE as nat, |i: int| 0u32)),
    {
        let cpu = Processor::new();

        Self { cpu }
    }

    /// The emulator at reset with the program that `lines` denote, one word per line.
    pub fn init(lines: &Vec<String>) -> (r: Result<Self, ProcessorError>)
        ensures
            ({
                let (imem, outcome) = spec_load_hex(
                    Seq::new(INSTRUCTION_MEMORY_SIZE as nat, |i: int| 0u32),
                    lines.deep_view(),
                    INSTRUCTION_MEMORY_INIT as int / 4,
                );
                match r {
                    Ok(emu) => outcome is Ok && emu@ == MachineState::reset(imem),
                    Err(error) => outcome == Err::<(), ProcessorError>(error),
                }
            }),
    {
        let cpu = Processor::init(lines)?;
        let emu = Self { cpu };

        Ok(emu)
    }

    /// Steps the machine until it halts, a step raises a fault, or `max_steps` steps are done.
    /// Returns the number of steps done, or the fault.
    pub fn run(&mut self, max_steps: u64) -> (r: Result<u64, ProcessorError>)
        ensures
            final(self)@ == old(self)@.run(max_steps as nat).0,
            match r {
                Ok(steps) => old(self)@.run(max_steps as nat).1 == Ok::<nat, ProcessorError>(
                    steps as nat,
                ),
                Err(error) => old(self)@.run(max_steps as nat).1 == Err::<nat, ProcessorError>(
                    error,
                ),
            },
    {
        let mut count: u64 = 0;

        while count < max_steps && !self.cpu.is_halt()
            invariant
                count <= max_steps,
                old(self)@.run(max_steps as nat) == after_steps(
                    self@.run((max_steps - count) as nat),
                    count as nat,
                ),
            decreases max_steps - count,
        {
            let res = self.cpu.step();
            match res {
                Err(error) => {
                    return Err(error);
                },
                _ => {},
            }

            count += 1;
        }

        Ok(count)
    }

    /// Whether the machine has halted.
    pub fn is_halt(&self) -> (halted: bool)
        ensures
            halted == self@.halted,
    {
        self.cpu.is_halt()
    }

    /// The processor, to look at.
    pub fn cpu(&self) -> (cpu: &Processor)
        ensures
            cpu@ == self@,
    {
        &self.cpu
    }
}

} // verus!
