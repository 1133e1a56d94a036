//! Tests of the per-operation execution semantics and their assembler
//! rendering.

use rv32emu::bus::Bus;
use rv32emu::cpu::Core;
use rv32emu::memory::Memory;
use rv32emu::op::{
    Fault, Operation, ADD, ADDI, AUIPC, BEQ, BLT, BLTU, CSRRS, CSRRW, CSRRWI, JAL, JALR, LB, LBU,
    LH, LHU, LUI, LW, SB, SLL, SLT, SLTU, SRA, SRAI, SUB, SW,
};

fn fresh_core() -> Core {
    let memory = Memory::new();
    let bus = Bus::new(memory);
    Core::new(bus)
}

#[test]
fn test_lui() {
    let mut core = fresh_core();

    let op = LUI { rd: 1, imm: 0x12340000 };
    assert_eq!(op.to_string(), "lui ra,0x12340000");

    op.execute(&mut core);
    assert_eq!(core.int_reg.read(1), 0x12340000);
}

#[test]
fn test_auipc() {
    let mut core = fresh_core();

    let op = AUIPC { rd: 1, imm: 0x80000000 };
    assert_eq!(op.to_string(), "auipc ra,0x80000000");

    core.pc = 0x40000000;
    op.execute(&mut core);
    assert_eq!(core.int_reg.read(1), 0xc0000000);

    core.pc = 0x80000000;
    op.execute(&mut core);
    assert_eq!(core.int_reg.read(1), 0x00000000);
}

#[test]
fn test_jal_link() {
    let mut core = fresh_core();
    core.pc = 0x8000_0000;
    core.next_pc = 0x8000_0004;
    let op = JAL { rd: 1, imm: 0x100 };
    op.execute(&mut core);
    assert_eq!(core.int_reg.read(1), 0x8000_0004);
    assert_eq!(core.next_pc, 0x8000_0100);
}

#[test]
fn test_jalr_link() {
    let mut core = fresh_core();
    core.pc = 0x8000_0000;
    core.next_pc = 0x8000_0004;
    core.int_reg.write(5, 0x8000_0200);
    let op = JALR { rd: 1, rs1: 5, imm: 0xffff_fffc };
    op.execute(&mut core);
    assert_eq!(core.int_reg.read(1), 0x8000_0004);
    assert_eq!(core.next_pc, 0x8000_01fc);
}

#[test]
fn test_branch_redirect() {
    let mut core = fresh_core();
    core.pc = 0x8000_0000;
    core.next_pc = 0x8000_0004;
    core.int_reg.write(1, 42);
    core.int_reg.write(2, 42);
    let op = BEQ { rs1: 1, rs2: 2, imm: 0x40 };
    op.execute(&mut core);
    assert_eq!(core.next_pc, 0x8000_0040);

    core.next_pc = 0x8000_0004;
    core.int_reg.write(2, 43);
    op.execute(&mut core);
    assert_eq!(core.next_pc, 0x8000_0004);
}

#[test]
fn test_branch_signedness() {
    let mut core = fresh_core();
    core.pc = 0x8000_0000;
    core.next_pc = 0x8000_0004;
    core.int_reg.write(1, 0xffff_ffff);
    core.int_reg.write(2, 1);

    let blt = BLT { rs1: 1, rs2: 2, imm: 0x40 };
    blt.execute(&mut core);
    assert_eq!(core.next_pc, 0x8000_0040);

    core.next_pc = 0x8000_0004;
    let bltu = BLTU { rs1: 1, rs2: 2, imm: 0x40 };
    bltu.execute(&mut core);
    assert_eq!(core.next_pc, 0x8000_0004);
}

#[test]
fn test_alu_wraparound() {
    let mut core = fresh_core();
    core.int_reg.write(1, 0xffff_ffff);
    core.int_reg.write(2, 2);

    let add = ADD { rd: 3, rs1: 1, rs2: 2 };
    add.execute(&mut core);
    assert_eq!(core.int_reg.read(3), 1);

    core.int_reg.write(1, 0);
    core.int_reg.write(2, 1);
    let sub = SUB { rd: 3, rs1: 1, rs2: 2 };
    sub.execute(&mut core);
    assert_eq!(core.int_reg.read(3), 0xffff_ffff);

    let addi = ADDI { rd: 4, rs1: 1, imm: 0xffff_ffff };
    addi.execute(&mut core);
    assert_eq!(core.int_reg.read(4), 0xffff_ffff);
}

#[test]
fn test_slt_signedness() {
    let mut core = fresh_core();
    core.int_reg.write(1, 0xffff_ffff);
    core.int_reg.write(2, 1);

    let slt = SLT { rd: 3, rs1: 1, rs2: 2 };
    slt.execute(&mut core);
    assert_eq!(core.int_reg.read(3), 1);

    let sltu = SLTU { rd: 3, rs1: 1, rs2: 2 };
    sltu.execute(&mut core);
    assert_eq!(core.int_reg.read(3), 0);
}

#[test]
fn test_shifts() {
    let mut core = fresh_core();
    core.int_reg.write(1, 0x8000_0010);

    let srai = SRAI { rd: 2, rs1: 1, shamt: 4 };
    srai.execute(&mut core);
    assert_eq!(core.int_reg.read(2), 0xf800_0001);

    core.int_reg.write(3, 36);
    let sra = SRA { rd: 2, rs1: 1, rs2: 3 };
    sra.execute(&mut core);
    assert_eq!(core.int_reg.read(2), 0xf800_0001);

    core.int_reg.write(3, 33);
    let sll = SLL { rd: 2, rs1: 1, rs2: 3 };
    sll.execute(&mut core);
    assert_eq!(core.int_reg.read(2), 0x0000_0020);
}

#[test]
fn test_load_store() {
    let mut core = fresh_core();
    core.int_reg.write(1, 0x8000_0100);
    core.int_reg.write(2, 0x1122_8384);

    let sw = SW { rs1: 1, rs2: 2, imm: 8 };
    sw.execute(&mut core);
    assert_eq!(core.bus.read_u32(0x8000_0108), 0x1122_8384);

    let lw = LW { rd: 3, rs1: 1, imm: 8 };
    lw.execute(&mut core);
    assert_eq!(core.int_reg.read(3), 0x1122_8384);

    // The signed loads replicate the sign bit of the byte or halfword;
    // the unsigned loads widen with zeros.
    let lb = LB { rd: 3, rs1: 1, imm: 8 };
    lb.execute(&mut core);
    assert_eq!(core.int_reg.read(3), 0xffff_ff84);

    let lbu = LBU { rd: 3, rs1: 1, imm: 8 };
    lbu.execute(&mut core);
    assert_eq!(core.int_reg.read(3), 0x84);

    let lh = LH { rd: 3, rs1: 1, imm: 8 };
    lh.execute(&mut core);
    assert_eq!(core.int_reg.read(3), 0xffff_8384);

    let lhu = LHU { rd: 3, rs1: 1, imm: 8 };
    lhu.execute(&mut core);
    assert_eq!(core.int_reg.read(3), 0x8384);

    let sb = SB { rs1: 1, rs2: 2, imm: 12 };
    sb.execute(&mut core);
    assert_eq!(core.bus.read_u8(0x8000_010c), 0x84);
}

#[test]
fn test_register_zero_discard() {
    let mut core = fresh_core();
    let op = LUI { rd: 0, imm: 0x12340000 };
    op.execute(&mut core);
    assert_eq!(core.int_reg.read(0), 0);
}

#[test]
fn test_csr_read_before_write() {
    let mut core = fresh_core();
    core.csr.write(0x123, 7);
    core.int_reg.write(5, 99);

    let op = CSRRW { csr: 0x123, rd: 4, rs1: 5 };
    op.execute(&mut core);
    assert_eq!(core.int_reg.read(4), 7);
    assert_eq!(core.csr.read(0x123), 99);
}

#[test]
fn test_csr_read_before_write_overlap() {
    let mut core = fresh_core();
    core.csr.write(0x123, 7);
    core.int_reg.write(4, 99);

    let op = CSRRW { csr: 0x123, rd: 4, rs1: 4 };
    op.execute(&mut core);
    assert_eq!(core.int_reg.read(4), 7);
    assert_eq!(core.csr.read(0x123), 99);
}

#[test]
fn test_csr_set_bits() {
    let mut core = fresh_core();
    core.csr.write(0x340, 0xf0);
    core.int_reg.write(5, 0x0f);

    let op = CSRRS { csr: 0x340, rd: 4, rs1: 5 };
    op.execute(&mut core);
    assert_eq!(core.int_reg.read(4), 0xf0);
    assert_eq!(core.csr.read(0x340), 0xff);

    let opi = CSRRWI { csr: 0x340, rd: 6, zimm: 0x1f };
    opi.execute(&mut core);
    assert_eq!(core.int_reg.read(6), 0xff);
    assert_eq!(core.csr.read(0x340), 0x1f);
}

#[test]
fn test_dispatch_faults() {
    let mut core = fresh_core();
    let lw = Operation::LW(LW { rd: 3, rs1: 0, imm: 0 });
    assert_eq!(lw.execute(&mut core), Err(Fault::OutOfRangeAccess));

    let unknown = rv32emu::decoder::decode(&0xffff_ffff);
    assert_eq!(unknown.execute(&mut core), Err(Fault::UnknownInstruction));

    let ok = Operation::LUI(LUI { rd: 1, imm: 0x1000 });
    assert_eq!(ok.execute(&mut core), Ok(()));
    assert_eq!(core.int_reg.read(1), 0x1000);
}

#[test]
fn test_render_forms() {
    assert_eq!(JAL { rd: 0, imm: 16 }.to_string(), "j #16");
    assert_eq!(JAL { rd: 1, imm: 16 }.to_string(), "jal ra,16");
    assert_eq!(JALR { rd: 0, rs1: 1, imm: 0 }.to_string(), "jr ra,0");
    assert_eq!(BEQ { rs1: 0, rs2: 5, imm: 8 }.to_string(), "beqz t0, #8");
    assert_eq!(BEQ { rs1: 5, rs2: 6, imm: 8 }.to_string(), "beq t0,t1,8");
    assert_eq!(LW { rd: 10, rs1: 2, imm: 12 }.to_string(), "lw a0,12(sp)");
    assert_eq!(SW { rs1: 2, rs2: 10, imm: 8 }.to_string(), "sw a0,8(sp)");
    assert_eq!(ADDI { rd: 1, rs1: 2, imm: 3 }.to_string(), "addi ra,sp,3");
    assert_eq!(CSRRW { csr: 0x300, rd: 0, rs1: 5 }.to_string(), "csrw mstatus,t0");
    assert_eq!(CSRRW { csr: 0x300, rd: 3, rs1: 5 }.to_string(), "csrrw gp,mstatus,t0");
    assert_eq!(CSRRS { csr: 0x341, rd: 3, rs1: 0 }.to_string(), "csrr gp,mepc");
    assert_eq!(rv32emu::op::UnknownOp {}.to_string(), "unknown");
    assert_eq!(rv32emu::op::ECALL {}.to_string(), "ecall");
    assert_eq!(rv32emu::op::SFENCEVMA {}.to_string(), "sfence.vma");
}
