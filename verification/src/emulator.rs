//! The execution loop: fetch, decode, execute, repeated while the
//! processor is powered on.  A stop request is cooperative and takes
//! effect only between instructions; the only fatal condition is a byte
//! with no documented instruction, which halts the loop and leaves the
//! whole processor state in place for inspection.

use vstd::prelude::*;

use crate::cpu::{CpuState, Mos6502};
use crate::insset::misc::spec_halt;
use crate::insset::{exec_ins, exec_instruction, lemma_exec_ins_preserves};
use crate::parser::{parse, spec_parse, InvalidOpcodeError};

verus! {

/// The state the loop begins from: the given one with the lifecycle
/// flag raised.
pub open spec fn spec_power_on(pre: CpuState) -> CpuState {
    CpuState { power_on: true, ..pre }
}

/// One turn of the fetch-decode-execute cycle: the byte at the program
/// counter is decoded and its instruction executed; a byte with no
/// documented instruction halts the processor in place.
pub open spec fn spec_step(pre: CpuState) -> CpuState {
    match spec_parse(pre.mem[pre.pc as int]) {
        Some(ins) => exec_ins(pre, ins),
        None => spec_halt(pre),
    }
}

/// What one turn of the cycle reports: nothing while instructions
/// decode, and the offending opcode when one does not.  The address of
/// the offending byte is the halted processor's program counter, which
/// the halt leaves in place.
pub open spec fn spec_step_report(pre: CpuState) -> Option<InvalidOpcodeError> {
    match spec_parse(pre.mem[pre.pc as int]) {
        Some(_) => None,
        None => Some(InvalidOpcodeError { opcode: pre.mem[pre.pc as int] }),
    }
}

/// The processor state after `n` turns of the cycle.
pub open spec fn run_n(pre: CpuState, n: nat) -> CpuState
    decreases n,
{
    if n == 0 {
        pre
    } else {
        spec_step(run_n(pre, (n - 1) as nat))
    }
}

/// One turn of the cycle preserves well-formedness.
pub proof fn lemma_spec_step_wf(pre: CpuState)
    requires
        pre.wf(),
    ensures
        spec_step(pre).wf(),
{
    match spec_parse(pre.mem[pre.pc as int]) {
        Some(ins) => lemma_exec_ins_preserves(pre, ins),
        None => {},
    }
}

/// Any number of turns of the cycle preserves well-formedness.
pub proof fn lemma_run_n_wf(pre: CpuState, n: nat)
    requires
        pre.wf(),
    ensures
        run_n(pre, n).wf(),
    decreases n,
{
    if n > 0 {
        lemma_run_n_wf(pre, (n - 1) as nat);
        lemma_spec_step_wf(run_n(pre, (n - 1) as nat));
    }
}

impl Mos6502 {
    /// Execute the instruction at the program counter: one turn of the
    /// fetch-decode-execute cycle.  Returns the report of the turn: the
    /// offending opcode if the byte decodes to no documented
    /// instruction - the processor is then halted in place - and nothing
    /// otherwise.
    pub fn step(&mut self) -> (r: Option<InvalidOpcodeError>)
        requires
            old(self)@.wf(),
        ensures
            final(self)@ == spec_step(old(self)@),
            r == spec_step_report(old(self)@),
    {
        let opcode = self.read_mem(self.pc);
        match parse(opcode) {
            Ok(ins) => {
                exec_instruction(self, &ins);
                None
            },
            Err(e) => {
                self.power_on = false;
                Some(e)
            },
        }
    }

    /// Power the processor on and run the cycle until it halts.
    ///
    /// The run ends when a byte decodes to no documented instruction:
    /// the processor is then powered off with every register, flag and
    /// memory byte in place and the program counter still naming the
    /// offending address.  The loop's progress measure is a 64-bit step
    /// counter, so a run that never meets an illegal opcode gives up
    /// after `u64::MAX` instructions.
    pub fn start(self: &mut Self)
        requires
            old(self)@.wf(),
        ensures
            final(self)@.wf(),
            exists|n: nat|
                final(self)@ == #[trigger] run_n(spec_power_on(old(self)@), n)
                    && (final(self)@.power_on ==> n == u64::MAX),
            !final(self)@.power_on ==> spec_parse(
                final(self)@.mem[final(self)@.pc as int],
            ) is None,
    {
        self.power_on = true;
        let ghost st0 = self@;
        let mut steps: u64 = 0;
        while self.power_on && steps < u64::MAX
            invariant
                self@.wf(),
                self@ == run_n(st0, steps as nat),
                !self@.power_on ==> spec_parse(self@.mem[self@.pc as int]) is None,
            decreases u64::MAX - steps,
        {
            let ghost pre = self@;
            self.step();
            proof {
                match spec_parse(pre.mem[pre.pc as int]) {
                    Some(ins) => lemma_exec_ins_preserves(pre, ins),
                    None => {},
                }
                assert(self@ == run_n(st0, (steps + 1) as nat));
            }
            steps = steps + 1;
        }
        proof {
            assert(st0 =~= spec_power_on(old(self)@));
            assert(self@ == run_n(spec_power_on(old(self)@), steps as nat));
        }
    }

    /// Request a cooperative stop: the lifecycle flag is cleared, and
    /// the loop observes it after the current instruction completes,
    /// never in the middle of one.
    pub fn stop(self: &mut Self)
        ensures
            final(self)@ == (CpuState { power_on: false, ..old(self)@ }),
    {
        self.power_on = false;
    }
}

} // verus!
