//! The execution loop: fetch, decode, execute, trap-check, commit, with a
//! termination poll before every cycle and a fixed cycle budget as a safety
//! bound.

use vstd::prelude::*;
use crate::bus::{bus_in_range, check_range, spec_translate};
use crate::cpu::{Core, CoreView};
use crate::decoder::{decode, lemma_decode_wf, spec_decode};
use crate::memory::le32_at;
use crate::op::{spec_execute, spec_post_check_trap, Fault};
use crate::trap::{process_trap, spec_process_trap};
use crate::util::wrap_add;

verus! {

/// Why a run ended: the termination poll read the reported non-zero value,
/// the cycle budget ran out with the poll still reading the reported value,
/// or a fatal fault stopped the machine.
#[derive(Clone, Copy, Debug, PartialEq, Eq, Structural)]
pub enum RunOutcome {
    Halted(u32),
    OutOfCycles(u32),
    Fault(Fault),
}

/// One whole cycle from hart state `v`: fetch the word under the program
/// counter, decode it, stage `pc + 4` as the next program counter, execute,
/// apply the raised trap if any, and commit the next program counter.
/// A fault leaves the state as the faulting step found it.
pub open spec fn spec_cycle(v: CoreView) -> (Option<Fault>, CoreView) {
    if !bus_in_range(v.pc, 4) {
        (Some(Fault::OutOfRangeAccess), v)
    } else {
        let op = spec_decode(le32_at(v.mem, spec_translate(v.pc) as int));
        let staged = v.with_next_pc(wrap_add(v.pc, 4));
        let (f, executed) = spec_execute(op, staged);
        if f is Some {
            (f, executed)
        } else {
            let checked = match spec_post_check_trap(op, executed.pc) {
                Some(t) => spec_process_trap(executed, t),
                None => executed,
            };
            (None, CoreView { pc: checked.next_pc, ..checked })
        }
    }
}

/// The run from hart state `v` with `fuel` cycles left: the termination
/// address is polled before every cycle, and once more when the budget runs
/// out; its first non-zero reading halts the run and is the reported value.
pub open spec fn spec_run(v: CoreView, fuel: nat) -> (RunOutcome, CoreView)
    decreases fuel,
{
    if !bus_in_range(v.host_io_addr, 4) {
        (RunOutcome::Fault(Fault::OutOfRangeAccess), v)
    } else {
        let h = le32_at(v.mem, spec_translate(v.host_io_addr) as int);
        if h != 0 {
            (RunOutcome::Halted(h), v)
        } else if fuel == 0 {
            (RunOutcome::OutOfCycles(h), v)
        } else {
            let (f, stepped) = spec_cycle(v);
            match f {
                Some(e) => (RunOutcome::Fault(e), stepped),
                None => spec_run(stepped, (fuel - 1) as nat),
            }
        }
    }
}

/// Drives the hart for at most `max_cycle` cycles, polling the termination
/// address before every cycle.
pub fn run(core: &mut Core, max_cycle: u32) -> (r: RunOutcome)
    requires
        old(core).wf(),
    ensures
        final(core).wf(),
        ({
            let (outcome, v) = spec_run(old(core)@, max_cycle as nat);
            &&& r == outcome
            &&& final(core)@ == v
        }),
{
    let mut i: u32 = 0;
    while i < max_cycle
        invariant
            core.wf(),
            i <= max_cycle,
            spec_run(core@, (max_cycle - i) as nat) == spec_run(old(core)@, max_cycle as nat),
        decreases max_cycle - i,
    {
        if !check_range(core.host_io_addr, 4) {
            return RunOutcome::Fault(Fault::OutOfRangeAccess);
        }
        let polled: u32 = core.read_host_io();
        if polled != 0 {
            return RunOutcome::Halted(polled);
        }
        if !check_range(core.pc, 4) {
            return RunOutcome::Fault(Fault::OutOfRangeAccess);
        }
        let insn: u32 = core.fetch();
        let op = decode(&insn);
        proof {
            lemma_decode_wf(insn);
        }

        core.next_pc = core.pc.wrapping_add(4);

        match op.execute(core) {
            Err(fault) => {
                return RunOutcome::Fault(fault);
            },
            Ok(()) => {},
        }

        match op.post_check_trap(core) {
            Some(trap) => process_trap(core, &trap),
            None => {},
        }

        core.pc = core.next_pc;
        i = i + 1;
    }
    if !check_range(core.host_io_addr, 4) {
        return RunOutcome::Fault(Fault::OutOfRangeAccess);
    }
    let polled: u32 = core.read_host_io();
    if polled != 0 {
        return RunOutcome::Halted(polled);
    }
    RunOutcome::OutOfCycles(polled)
}

} // verus!
