//! Tests of the trap controller and the whole fetch-decode-execute loop.

use rv32emu::bus::Bus;
use rv32emu::cpu::Core;
use rv32emu::memory::Memory;
use rv32emu::op::{Fault, EBREAK, ECALL, MRET};
use rv32emu::sim::{run, RunOutcome};
use rv32emu::trap::{process_trap, Trap, TrapType};

const HOST_IO_ADDR: u32 = 0x8000_1000;
const INITIAL_PC: u32 = 0x8000_0000;
const MAX_CYCLE: u32 = 1000;

fn fresh_core() -> Core {
    let memory = Memory::new();
    let bus = Bus::new(memory);
    let mut core = Core::new(bus);
    core.host_io_addr = HOST_IO_ADDR;
    core.pc = INITIAL_PC;
    core
}

#[test]
fn trap_constructors() {
    let t = Trap::new_ebreak(0x100);
    assert!(matches!(t.trap_type, TrapType::Exception));
    assert_eq!(t.cause, 3);
    assert_eq!(t.value, 0);
    assert_eq!(t.pc, 0x100);

    let t = Trap::new_ecall_from_machine(0x104);
    assert!(matches!(t.trap_type, TrapType::Exception));
    assert_eq!(t.cause, 11);

    let t = Trap::new_trap_return(0x108);
    assert!(matches!(t.trap_type, TrapType::TrapReturn));
}

#[test]
fn trap_round_trip() {
    let mut core = fresh_core();
    core.csr.write_mtvec(0x8000_0102);
    core.csr.write_mstatus(0x8);
    core.pc = 0x8000_0040;
    core.next_pc = 0x8000_0044;

    let ecall = ECALL {};
    let trap = ecall.post_check_trap(&mut core).unwrap();
    assert_eq!(trap.pc, 0x8000_0040);
    assert_eq!(trap.cause, 11);
    process_trap(&mut core, &trap);

    assert_eq!(core.csr.read_mepc(), 0x8000_0040);
    assert_eq!(core.csr.read_mcause(), 11);
    assert_eq!(core.csr.read_mtval(), 0);
    // The redirect target is the vector base with the mode bits cleared.
    assert_eq!(core.next_pc, 0x8000_0100);
    // mie cleared, the old mie saved into mpie, mpp at machine privilege.
    assert_eq!(core.csr.read_mstatus(), 0x1880);

    core.pc = core.next_pc;
    let mret = MRET {};
    let back = mret.post_check_trap(&mut core).unwrap();
    assert!(matches!(back.trap_type, TrapType::TrapReturn));
    process_trap(&mut core, &back);

    // Control returns to the faulting pc; mie is restored from mpie and
    // mpp drops back to user privilege.
    assert_eq!(core.next_pc, 0x8000_0040);
    assert_eq!(core.csr.read_mstatus(), 0x88);
}

#[test]
fn ebreak_cause() {
    let mut core = fresh_core();
    core.pc = 0x8000_0010;
    let ebreak = EBREAK {};
    let trap = ebreak.post_check_trap(&mut core).unwrap();
    assert_eq!(trap.cause, 3);
    process_trap(&mut core, &trap);
    assert_eq!(core.csr.read_mcause(), 3);
    assert_eq!(core.csr.read_mepc(), 0x8000_0010);
}

#[test]
fn run_minimal_image() {
    // The two-instruction image: after both execute, the third fetched
    // word matches no encoding and the run stops with a fatal fault, the
    // registers holding the expected results.
    let mut core = fresh_core();
    core.bus.memory.write_u32(0, 0x000010b7); // lui x1,0x1000
    core.bus.memory.write_u32(4, 0x00408113); // addi x2,x1,4
    core.bus.memory.write_u32(0x1000, 0);

    let outcome = run(&mut core, MAX_CYCLE);
    assert_eq!(outcome, RunOutcome::Fault(Fault::UnknownInstruction));
    assert_eq!(core.int_reg.read(1), 0x1000);
    assert_eq!(core.int_reg.read(2), 0x1004);
}

#[test]
fn run_out_of_cycles() {
    // The same image followed by a jump-to-self: the loop spins until the
    // cycle budget runs out, with the termination poll still reading zero.
    let mut core = fresh_core();
    core.bus.memory.write_u32(0, 0x000010b7); // lui x1,0x1000
    core.bus.memory.write_u32(4, 0x00408113); // addi x2,x1,4
    core.bus.memory.write_u32(8, 0x0000006f); // jal x0,0
    core.bus.memory.write_u32(0x1000, 0);

    let outcome = run(&mut core, MAX_CYCLE);
    assert_eq!(outcome, RunOutcome::OutOfCycles(0));
    assert_eq!(core.int_reg.read(1), 0x1000);
    assert_eq!(core.int_reg.read(2), 0x1004);
    assert_eq!(core.pc, 0x8000_0008);
}

#[test]
fn run_reports_host_io() {
    // A store to the termination address halts the loop at the next poll
    // and its value is the reported result.
    let mut core = fresh_core();
    core.bus.memory.write_u32(0, 0x00100093); // addi x1,x0,1
    core.bus.memory.write_u32(4, 0x80001137); // lui x2,0x80001000
    core.bus.memory.write_u32(8, 0x00112023); // sw x1,0(x2)
    core.bus.memory.write_u32(0x1000, 0);

    let outcome = run(&mut core, MAX_CYCLE);
    assert_eq!(outcome, RunOutcome::Halted(1));
    assert_eq!(core.int_reg.read(1), 1);
    assert_eq!(core.int_reg.read(2), 0x8000_1000);
}

#[test]
fn run_halts_before_first_cycle() {
    let mut core = fresh_core();
    core.bus.memory.write_u32(0x1000, 0x2a);
    let outcome = run(&mut core, MAX_CYCLE);
    assert_eq!(outcome, RunOutcome::Halted(0x2a));
    assert_eq!(core.pc, INITIAL_PC);
}

#[test]
fn run_fetch_fault() {
    let mut core = fresh_core();
    core.bus.memory.write_u32(0x1000, 0);
    core.pc = 0;
    let outcome = run(&mut core, MAX_CYCLE);
    assert_eq!(outcome, RunOutcome::Fault(Fault::OutOfRangeAccess));
}

#[test]
fn run_zero_budget() {
    let mut core = fresh_core();
    core.bus.memory.write_u32(0x1000, 0);
    let outcome = run(&mut core, 0);
    assert_eq!(outcome, RunOutcome::OutOfCycles(0));
}
