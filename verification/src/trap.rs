//! Traps and their controller.  A trap is either an exception (breakpoint or
//! environment call) or a privileged return; the controller applies the
//! CSR and next-program-counter side effects of each kind.

use vstd::prelude::*;
use crate::cpu::{Core, CoreView};
use crate::csr::{
    mstatus_mie, mstatus_mpie, mstatus_mpp, mstatus_with_mie, mstatus_with_mpie, mstatus_with_mpp,
    mtvec_base, CSR_INDEX_MCAUSE, CSR_INDEX_MEPC, CSR_INDEX_MSTATUS, CSR_INDEX_MTVAL,
    CSR_INDEX_MTVEC,
};

verus! {

/// Privilege encoding of machine mode in `mstatus.mpp`.
pub const PRIV_MACHINE: u32 = 3;

/// Exception cause code of a breakpoint.
pub const CAUSE_EBREAK: u32 = 3;

/// Exception cause code of an environment call from machine mode.
pub const CAUSE_ECALL_FROM_M: u32 = 11;

#[derive(Clone, Copy, Debug, PartialEq, Eq, Structural)]
pub enum TrapType {
    Exception,
    TrapReturn,
}

#[derive(Clone, Copy, Debug, PartialEq, Eq, Structural)]
pub struct Trap {
    pub trap_type: TrapType,
    pub cause: u32,
    pub value: u32,
    pub pc: u32,
}

impl Trap {
    /// A breakpoint exception raised at `pc`.
    pub fn new_ebreak(pc: u32) -> (t: Trap)
        ensures
            t == (Trap { trap_type: TrapType::Exception, cause: CAUSE_EBREAK, value: 0, pc }),
    {
        Trap { trap_type: TrapType::Exception, cause: CAUSE_EBREAK, value: 0, pc }
    }

    /// An environment call from machine mode raised at `pc`.
    pub fn new_ecall_from_machine(pc: u32) -> (t: Trap)
        ensures
            t == (Trap {
                trap_type: TrapType::Exception,
                cause: CAUSE_ECALL_FROM_M,
                value: 0,
                pc,
            }),
    {
        Trap { trap_type: TrapType::Exception, cause: CAUSE_ECALL_FROM_M, value: 0, pc }
    }

    /// A privileged return raised at `pc`; the cause is unused.
    pub fn new_trap_return(pc: u32) -> (t: Trap)
        ensures
            t == (Trap { trap_type: TrapType::TrapReturn, cause: 0, value: 0, pc }),
    {
        Trap { trap_type: TrapType::TrapReturn, cause: 0, value: 0, pc }
    }
}

/// The `mstatus` value after exception entry: `mpie` saves the old `mie`,
/// `mie` is cleared, and `mpp` records machine privilege.
pub open spec fn mstatus_on_exception(ms: u32) -> u32 {
    mstatus_with_mpp(mstatus_with_mie(mstatus_with_mpie(ms, mstatus_mie(ms)), 0), PRIV_MACHINE)
}

/// The `mstatus` value after a privileged return: `mpp` drops to user
/// privilege and `mie` is restored from `mpie`.
pub open spec fn mstatus_on_trap_return(ms: u32) -> u32 {
    mstatus_with_mie(mstatus_with_mpp(ms, 0), mstatus_mpie(mstatus_with_mpp(ms, 0)))
}

/// The hart state after the controller handles an exception: `mstatus` is
/// reshaped, the cause, faulting pc and value are recorded, and control is
/// redirected to the trap-vector base.
pub open spec fn spec_process_exception(v: CoreView, trap: Trap) -> CoreView {
    v.with_csrs(
        v.csrs.update(CSR_INDEX_MSTATUS as int, mstatus_on_exception(v.csrs[CSR_INDEX_MSTATUS as int])).update(
            CSR_INDEX_MCAUSE as int,
            trap.cause,
        ).update(CSR_INDEX_MEPC as int, trap.pc).update(CSR_INDEX_MTVAL as int, trap.value),
    ).with_next_pc(mtvec_base(v.csrs[CSR_INDEX_MTVEC as int]))
}

/// The hart state after the controller handles a privileged return:
/// `mstatus` is restored and control returns to the saved `mepc`.
pub open spec fn spec_process_trap_return(v: CoreView) -> CoreView {
    v.with_csrs(
        v.csrs.update(
            CSR_INDEX_MSTATUS as int,
            mstatus_on_trap_return(v.csrs[CSR_INDEX_MSTATUS as int]),
        ),
    ).with_next_pc(v.csrs[CSR_INDEX_MEPC as int])
}

/// The hart state after the controller consumes `trap`.
pub open spec fn spec_process_trap(v: CoreView, trap: Trap) -> CoreView {
    match trap.trap_type {
        TrapType::TrapReturn => spec_process_trap_return(v),
        TrapType::Exception => spec_process_exception(v, trap),
    }
}

fn process_exception(core: &mut Core, trap: &Trap)
    requires
        old(core).wf(),
    ensures
        final(core).wf(),
        final(core)@ == spec_process_exception(old(core)@, *trap),
{
    let mstatus: u32 = core.csr.read_mstatus();
    let mtvec: u32 = core.csr.read_mtvec();

    let mie: u32 = (mstatus >> 3) & 1;
    let ms1: u32 = (mstatus & !0x80u32) | (mie << 7);
    let ms2: u32 = (ms1 & !0x8u32) | (0u32 << 3);
    let ms3: u32 = (ms2 & !0x1800u32) | (PRIV_MACHINE << 11);

    core.csr.write_mstatus(ms3);
    core.csr.write_mcause(trap.cause);
    core.csr.write_mepc(trap.pc);
    core.csr.write_mtval(trap.value);

    core.next_pc = mtvec & 0xffff_fffcu32;
}

fn process_trap_return(core: &mut Core, _trap: &Trap)
    requires
        old(core).wf(),
    ensures
        final(core).wf(),
        final(core)@ == spec_process_trap_return(old(core)@),
{
    let mstatus: u32 = core.csr.read_mstatus();
    let mepc: u32 = core.csr.read_mepc();

    let ms1: u32 = (mstatus & !0x1800u32) | (0u32 << 11);
    let mpie: u32 = (ms1 >> 7) & 1;
    let ms2: u32 = (ms1 & !0x8u32) | (mpie << 3);

    core.csr.write_mstatus(ms2);
    core.next_pc = mepc;
}

/// Applies the side effects of `trap` to the hart.
pub fn process_trap(core: &mut Core, trap: &Trap)
    requires
        old(core).wf(),
    ensures
        final(core).wf(),
        final(core)@ == spec_process_trap(old(core)@, *trap),
{
    match trap.trap_type {
        TrapType::TrapReturn => process_trap_return(core, trap),
        _ => process_exception(core, trap),
    }
}

proof fn lemma_mstatus_trap_fields(ms: u32, x: u32)
    by (bit_vector)
    ensures
        mstatus_mie(mstatus_on_exception(ms)) == 0,
        mstatus_mpie(mstatus_on_exception(ms)) == mstatus_mie(ms),
        mstatus_mpp(mstatus_on_exception(ms)) == PRIV_MACHINE,
        mstatus_mie(mstatus_on_trap_return(x)) == mstatus_mpie(x),
        mstatus_mpie(mstatus_on_trap_return(x)) == mstatus_mpie(x),
        mstatus_mpp(mstatus_on_trap_return(x)) == 0,
{
}

/// Trap round trip: after an exception enters the handler, `mepc` holds the
/// faulting pc, `mcause` holds the cause, control goes to the trap-vector
/// base, and interrupts are disabled with the previous enable bit saved in
/// `mpie`; a privileged return taken from that state sends control back to
/// the faulting pc and restores `mie` from the saved bit.
pub proof fn lemma_trap_round_trip(v: CoreView, trap: Trap)
    requires
        v.wf(),
        trap.trap_type == TrapType::Exception,
    ensures
        ({
            let entered = spec_process_exception(v, trap);
            let returned = spec_process_trap_return(entered);
            &&& entered.csrs[CSR_INDEX_MEPC as int] == trap.pc
            &&& entered.csrs[CSR_INDEX_MCAUSE as int] == trap.cause
            &&& entered.csrs[CSR_INDEX_MTVAL as int] == trap.value
            &&& entered.next_pc == mtvec_base(v.csrs[CSR_INDEX_MTVEC as int])
            &&& mstatus_mie(entered.csrs[CSR_INDEX_MSTATUS as int]) == 0
            &&& mstatus_mpie(entered.csrs[CSR_INDEX_MSTATUS as int]) == mstatus_mie(
                v.csrs[CSR_INDEX_MSTATUS as int],
            )
            &&& returned.next_pc == trap.pc
            &&& mstatus_mie(returned.csrs[CSR_INDEX_MSTATUS as int]) == mstatus_mpie(
                entered.csrs[CSR_INDEX_MSTATUS as int],
            )
            &&& mstatus_mie(returned.csrs[CSR_INDEX_MSTATUS as int]) == mstatus_mie(
                v.csrs[CSR_INDEX_MSTATUS as int],
            )
            &&& mstatus_mpp(returned.csrs[CSR_INDEX_MSTATUS as int]) == 0
        }),
{
    let ms = v.csrs[CSR_INDEX_MSTATUS as int];
    let entered = spec_process_exception(v, trap);
    lemma_mstatus_trap_fields(ms, entered.csrs[CSR_INDEX_MSTATUS as int]);
}

} // verus!
