//! The instruction decoder: a pure, total function from a 32-bit word to an
//! `Operation`.  Every bit pattern that matches no known encoding yields the
//! unknown operation.  Immediates come out of the decoder already shifted
//! and sign- or zero-extended as the instruction format requires; the
//! jump-and-link immediate is assembled from its scattered fields without a
//! final sign extension.

use vstd::prelude::*;
use crate::op::{
    Operation, UnknownOp, LUI, AUIPC, JAL, JALR, BEQ, BNE, BLT, BGE, BLTU, BGEU, LB, LH, LW, LBU,
    LHU, SB, SH, SW, ADDI, SLTI, SLTIU, XORI, ORI, ANDI, SLLI, SRLI, SRAI, ADD, SUB, SLL, SLT,
    SLTU, XOR, SRL, SRA, OR, AND, FENCE, FENCEI, ECALL, EBREAK, CSRRW, CSRRS, CSRRC, CSRRWI,
    CSRRSI, CSRRCI, URET, SRET, MRET, WFI, SFENCEVMA,
};
use crate::util::{
    lemma_bits_bound, lemma_low_mask_values, pick, sign_extend, spec_bits, spec_sign_extend,
};

verus! {

/// The operation a 32-bit instruction word denotes.
pub open spec fn spec_decode(insn: u32) -> Operation {
    let opcode = spec_bits(insn, 0, 7);
    let rd = spec_bits(insn, 7, 5) as usize;
    let funct3 = spec_bits(insn, 12, 3);
    let rs1 = spec_bits(insn, 15, 5) as usize;
    let rs2 = spec_bits(insn, 20, 5) as usize;
    let funct7 = spec_bits(insn, 25, 7);
    if opcode == 0b0110111 {
        Operation::LUI(LUI { rd, imm: spec_bits(insn, 12, 20) << 12 })
    } else if opcode == 0b0010111 {
        Operation::AUIPC(AUIPC { rd, imm: spec_bits(insn, 12, 20) << 12 })
    } else if opcode == 0b1101111 {
        let imm = (spec_bits(insn, 31, 1) << 20) | (spec_bits(insn, 21, 10) << 1) | (spec_bits(
            insn,
            20,
            1,
        ) << 11) | (spec_bits(insn, 12, 8) << 12);
        Operation::JAL(JAL { rd, imm })
    } else if opcode == 0b1100111 {
        let imm = spec_sign_extend(12, spec_bits(insn, 20, 12));
        if funct3 == 0b000 {
            Operation::JALR(JALR { rd, rs1, imm })
        } else {
            Operation::UnknownOp(UnknownOp {  })
        }
    } else if opcode == 0b1100011 {
        let imm = spec_sign_extend(
            13,
            (spec_bits(insn, 31, 1) << 12) | (spec_bits(insn, 7, 1) << 11) | (spec_bits(
                insn,
                25,
                6,
            ) << 5) | (spec_bits(insn, 8, 4) << 1),
        );
        if funct3 == 0b000 {
            Operation::BEQ(BEQ { rs1, rs2, imm })
        } else if funct3 == 0b001 {
            Operation::BNE(BNE { rs1, rs2, imm })
        } else if funct3 == 0b100 {
            Operation::BLT(BLT { rs1, rs2, imm })
        } else if funct3 == 0b101 {
            Operation::BGE(BGE { rs1, rs2, imm })
        } else if funct3 == 0b110 {
            Operation::BLTU(BLTU { rs1, rs2, imm })
        } else if funct3 == 0b111 {
            Operation::BGEU(BGEU { rs1, rs2, imm })
        } else {
            Operation::UnknownOp(UnknownOp {  })
        }
    } else if opcode == 0b0000011 {
        let imm = spec_sign_extend(12, spec_bits(insn, 20, 12));
        if funct3 == 0b000 {
            Operation::LB(LB { rd, rs1, imm })
        } else if funct3 == 0b001 {
            Operation::LH(LH { rd, rs1, imm })
        } else if funct3 == 0b010 {
            Operation::LW(LW { rd, rs1, imm })
        } else if funct3 == 0b100 {
            Operation::LBU(LBU { rd, rs1, imm })
        } else if funct3 == 0b101 {
            Operation::LHU(LHU { rd, rs1, imm })
        } else {
            Operation::UnknownOp(UnknownOp {  })
        }
    } else if opcode == 0b0100011 {
        let imm = spec_sign_extend(
            12,
            (spec_bits(insn, 25, 7) << 5) | spec_bits(insn, 7, 5),
        );
        if funct3 == 0b000 {
            Operation::SB(SB { rs1, rs2, imm })
        } else if funct3 == 0b001 {
            Operation::SH(SH { rs1, rs2, imm })
        } else if funct3 == 0b010 {
            Operation::SW(SW { rs1, rs2, imm })
        } else {
            Operation::UnknownOp(UnknownOp {  })
        }
    } else if opcode == 0b0010011 {
        let imm = spec_sign_extend(12, spec_bits(insn, 20, 12));
        let shamt = spec_bits(insn, 20, 5);
        if funct3 == 0b000 {
            Operation::ADDI(ADDI { rd, rs1, imm })
        } else if funct3 == 0b010 {
            Operation::SLTI(SLTI { rd, rs1, imm })
        } else if funct3 == 0b011 {
            Operation::SLTIU(SLTIU { rd, rs1, imm })
        } else if funct3 == 0b100 {
            Operation::XORI(XORI { rd, rs1, imm })
        } else if funct3 == 0b110 {
            Operation::ORI(ORI { rd, rs1, imm })
        } else if funct3 == 0b111 {
            Operation::ANDI(ANDI { rd, rs1, imm })
        } else if funct3 == 0b001 && funct7 == 0b0000000 {
            Operation::SLLI(SLLI { rd, rs1, shamt })
        } else if funct3 == 0b101 && funct7 == 0b0000000 {
            Operation::SRLI(SRLI { rd, rs1, shamt })
        } else if funct3 == 0b101 && funct7 == 0b0000001 {
            Operation::SRAI(SRAI { rd, rs1, shamt })
        } else {
            Operation::UnknownOp(UnknownOp {  })
        }
    } else if opcode == 0b0110011 {
        if funct3 == 0b000 && funct7 == 0b0000000 {
            Operation::ADD(ADD { rd, rs1, rs2 })
        } else if funct3 == 0b000 && funct7 == 0b0100000 {
            Operation::SUB(SUB { rd, rs1, rs2 })
        } else if funct3 == 0b001 && funct7 == 0b0000000 {
            Operation::SLL(SLL { rd, rs1, rs2 })
        } else if funct3 == 0b010 && funct7 == 0b0000000 {
            Operation::SLT(SLT { rd, rs1, rs2 })
        } else if funct3 == 0b011 && funct7 == 0b0000000 {
            Operation::SLTU(SLTU { rd, rs1, rs2 })
        } else if funct3 == 0b100 && funct7 == 0b0000000 {
            Operation::XOR(XOR { rd, rs1, rs2 })
        } else if funct3 == 0b101 && funct7 == 0b0000000 {
            Operation::SRL(SRL { rd, rs1, rs2 })
        } else if funct3 == 0b101 && funct7 == 0b0100000 {
            Operation::SRA(SRA { rd, rs1, rs2 })
        } else if funct3 == 0b110 && funct7 == 0b0000000 {
            Operation::OR(OR { rd, rs1, rs2 })
        } else if funct3 == 0b111 && funct7 == 0b0000000 {
            Operation::AND(AND { rd, rs1, rs2 })
        } else {
            Operation::UnknownOp(UnknownOp {  })
        }
    } else if opcode == 0b0001111 {
        let head = spec_bits(insn, 28, 4);
        let pred = spec_bits(insn, 28, 4);
        let succ = spec_bits(insn, 28, 4);
        if funct3 == 0b000 && rs1 == 0 && rd == 0 && head == 0 {
            Operation::FENCE(FENCE { pred, succ })
        } else if funct3 == 0b001 && rs1 == 0 && rd == 0 && head == 0 && pred == 0 && succ == 0 {
            Operation::FENCEI(FENCEI {  })
        } else {
            Operation::UnknownOp(UnknownOp {  })
        }
    } else if opcode == 0b1110011 {
        let csr = spec_bits(insn, 20, 12) as usize;
        let zimm = spec_bits(insn, 15, 5);
        if funct3 == 0b000 && funct7 == 0b0000000 && rs2 == 0b00000 && rs1 == 0b00000 && rd
            == 0b00000 {
            Operation::ECALL(ECALL {  })
        } else if funct3 == 0b000 && funct7 == 0b0000000 && rs2 == 0b00001 && rs1 == 0b00000 && rd
            == 0b00000 {
            Operation::EBREAK(EBREAK {  })
        } else if funct3 == 0b000 && funct7 == 0b0000000 && rs2 == 0b00010 && rs1 == 0b00000 && rd
            == 0b00000 {
            Operation::URET(URET {  })
        } else if funct3 == 0b000 && funct7 == 0b0001000 && rs2 == 0b00010 && rs1 == 0b00000 && rd
            == 0b00000 {
            Operation::SRET(SRET {  })
        } else if funct3 == 0b000 && funct7 == 0b0011000 && rs2 == 0b00010 && rs1 == 0b00000 && rd
            == 0b00000 {
            Operation::MRET(MRET {  })
        } else if funct3 == 0b000 && funct7 == 0b0001000 && rs2 == 0b00101 && rs1 == 0b00000 && rd
            == 0b00000 {
            Operation::WFI(WFI {  })
        } else if funct3 == 0b000 && funct7 == 0b0001001 && rd == 0b00000 {
            Operation::SFENCEVMA(SFENCEVMA {  })
        } else if funct3 == 0b001 {
            Operation::CSRRW(CSRRW { csr, rd, rs1 })
        } else if funct3 == 0b010 {
            Operation::CSRRS(CSRRS { csr, rd, rs1 })
        } else if funct3 == 0b011 {
            Operation::CSRRC(CSRRC { csr, rd, rs1 })
        } else if funct3 == 0b101 {
            Operation::CSRRWI(CSRRWI { csr, rd, zimm })
        } else if funct3 == 0b110 {
            Operation::CSRRSI(CSRRSI { csr, rd, zimm })
        } else if funct3 == 0b111 {
            Operation::CSRRCI(CSRRCI { csr, rd, zimm })
        } else {
            Operation::UnknownOp(UnknownOp {  })
        }
    } else {
        Operation::UnknownOp(UnknownOp {  })
    }
}

/// Whatever the word, the decoded operation carries in-range register and
/// CSR indices.
pub proof fn lemma_decode_wf(insn: u32)
    ensures
        spec_decode(insn).wf(),
{
    lemma_low_mask_values();
    lemma_bits_bound(insn, 7, 5);
    lemma_bits_bound(insn, 15, 5);
    lemma_bits_bound(insn, 20, 5);
    lemma_bits_bound(insn, 20, 12);
}

/// Decodes one instruction word.  Total: any unmatched encoding, inside or
/// outside a matched opcode group, comes back as the unknown operation.
pub fn decode(insn: &u32) -> (op: Operation)
    ensures
        op == spec_decode(*insn),
{
    let opcode: u32 = pick(insn, 0, 7);
    let rd: usize = pick(insn, 7, 5) as usize;
    let funct3: u32 = pick(insn, 12, 3);
    let rs1: usize = pick(insn, 15, 5) as usize;
    let rs2: usize = pick(insn, 20, 5) as usize;
    let funct7: u32 = pick(insn, 25, 7);

    match opcode {
        0b0110111 => {
            let imm: u32 = pick(insn, 12, 20) << 12;
            Operation::LUI(LUI { rd, imm })
        },
        0b0010111 => {
            let imm: u32 = pick(insn, 12, 20) << 12;
            Operation::AUIPC(AUIPC { rd, imm })
        },
        0b1101111 => {
            let imm: u32 = (pick(insn, 31, 1) << 20) | (pick(insn, 21, 10) << 1) | (pick(
                insn,
                20,
                1,
            ) << 11) | (pick(insn, 12, 8) << 12);
            Operation::JAL(JAL { rd, imm })
        },
        0b1100111 => {
            let imm: u32 = sign_extend(12, pick(insn, 20, 12));
            match funct3 {
                0b000 => Operation::JALR(JALR { rd, rs1, imm }),
                _ => Operation::UnknownOp(UnknownOp {  }),
            }
        },
        0b1100011 => {
            let imm: u32 = sign_extend(
                13,
                (pick(insn, 31, 1) << 12) | (pick(insn, 7, 1) << 11) | (pick(insn, 25, 6) << 5) | (
                pick(insn, 8, 4) << 1),
            );
            match funct3 {
                0b000 => Operation::BEQ(BEQ { rs1, rs2, imm }),
                0b001 => Operation::BNE(BNE { rs1, rs2, imm }),
                0b100 => Operation::BLT(BLT { rs1, rs2, imm }),
                0b101 => Operation::BGE(BGE { rs1, rs2, imm }),
                0b110 => Operation::BLTU(BLTU { rs1, rs2, imm }),
                0b111 => Operation::BGEU(BGEU { rs1, rs2, imm }),
                _ => Operation::UnknownOp(UnknownOp {  }),
            }
        },
        0b0000011 => {
            let imm: u32 = sign_extend(12, pick(insn, 20, 12));
            match funct3 {
                0b000 => Operation::LB(LB { rd, rs1, imm }),
                0b001 => Operation::LH(LH { rd, rs1, imm }),
                0b010 => Operation::LW(LW { rd, rs1, imm }),
                0b100 => Operation::LBU(LBU { rd, rs1, imm }),
                0b101 => Operation::LHU(LHU { rd, rs1, imm }),
                _ => Operation::UnknownOp(UnknownOp {  }),
            }
        },
        0b0100011 => {
            let imm: u32 = sign_extend(12, (pick(insn, 25, 7) << 5) | pick(insn, 7, 5));
            match funct3 {
                0b000 => Operation::SB(SB { rs1, rs2, imm }),
                0b001 => Operation::SH(SH { rs1, rs2, imm }),
                0b010 => Operation::SW(SW { rs1, rs2, imm }),
                _ => Operation::UnknownOp(UnknownOp {  }),
            }
        },
        0b0010011 => {
            let imm: u32 = sign_extend(12, pick(insn, 20, 12));
            let shamt: u32 = pick(insn, 20, 5);
            match (funct3, funct7) {
                (0b000, _) => Operation::ADDI(ADDI { rd, rs1, imm }),
                (0b010, _) => Operation::SLTI(SLTI { rd, rs1, imm }),
                (0b011, _) => Operation::SLTIU(SLTIU { rd, rs1, imm }),
                (0b100, _) => Operation::XORI(XORI { rd, rs1, imm }),
                (0b110, _) => Operation::ORI(ORI { rd, rs1, imm }),
                (0b111, _) => Operation::ANDI(ANDI { rd, rs1, imm }),
                (0b001, 0b0000000) => Operation::SLLI(SLLI { rd, rs1, shamt }),
                (0b101, 0b0000000) => Operation::SRLI(SRLI { rd, rs1, shamt }),
                (0b101, 0b0000001) => Operation::SRAI(SRAI { rd, rs1, shamt }),
                _ => Operation::UnknownOp(UnknownOp {  }),
            }
        },
        0b0110011 => {
            match (funct3, funct7) {
                (0b000, 0b0000000) => Operation::ADD(ADD { rd, rs1, rs2 }),
                (0b000, 0b0100000) => Operation::SUB(SUB { rd, rs1, rs2 }),
                (0b001, 0b0000000) => Operation::SLL(SLL { rd, rs1, rs2 }),
                (0b010, 0b0000000) => Operation::SLT(SLT { rd, rs1, rs2 }),
                (0b011, 0b0000000) => Operation::SLTU(SLTU { rd, rs1, rs2 }),
                (0b100, 0b0000000) => Operation::XOR(XOR { rd, rs1, rs2 }),
                (0b101, 0b0000000) => Operation::SRL(SRL { rd, rs1, rs2 }),
                (0b101, 0b0100000) => Operation::SRA(SRA { rd, rs1, rs2 }),
                (0b110, 0b0000000) => Operation::OR(OR { rd, rs1, rs2 }),
                (0b111, 0b0000000) => Operation::AND(AND { rd, rs1, rs2 }),
                _ => Operation::UnknownOp(UnknownOp {  }),
            }
        },
        0b0001111 => {
            let head: u32 = pick(insn, 28, 4);
            let pred: u32 = pick(insn, 28, 4);
            let succ: u32 = pick(insn, 28, 4);
            match (funct3, rs1, rd, head, pred, succ) {
                (0b000, 0b00000, 0b00000, 0b0000, _, _) => Operation::FENCE(FENCE { pred, succ }),
                (0b001, 0b00000, 0b00000, 0b0000, 0b00000, 0b00000) => Operation::FENCEI(
                    FENCEI {  },
                ),
                _ => Operation::UnknownOp(UnknownOp {  }),
            }
        },
        0b1110011 => {
            let csr: usize = pick(insn, 20, 12) as usize;
            let zimm: u32 = pick(insn, 15, 5);
            match (funct3, funct7, rs2, rs1, rd) {
                (0b000, 0b0000000, 0b00000, 0b00000, 0b00000) => Operation::ECALL(ECALL {  }),
                (0b000, 0b0000000, 0b00001, 0b00000, 0b00000) => Operation::EBREAK(EBREAK {  }),
                (0b000, 0b0000000, 0b00010, 0b00000, 0b00000) => Operation::URET(URET {  }),
                (0b000, 0b0001000, 0b00010, 0b00000, 0b00000) => Operation::SRET(SRET {  }),
                (0b000, 0b0011000, 0b00010, 0b00000, 0b00000) => Operation::MRET(MRET {  }),
                (0b000, 0b0001000, 0b00101, 0b00000, 0b00000) => Operation::WFI(WFI {  }),
                (0b000, 0b0001001, _, _, 0b00000) => Operation::SFENCEVMA(SFENCEVMA {  }),
                (0b001, _, _, _, _) => Operation::CSRRW(CSRRW { csr, rd, rs1 }),
                (0b010, _, _, _, _) => Operation::CSRRS(CSRRS { csr, rd, rs1 }),
                (0b011, _, _, _, _) => Operation::CSRRC(CSRRC { csr, rd, rs1 }),
                (0b101, _, _, _, _) => Operation::CSRRWI(CSRRWI { csr, rd, zimm }),
                (0b110, _, _, _, _) => Operation::CSRRSI(CSRRSI { csr, rd, zimm }),
                (0b111, _, _, _, _) => Operation::CSRRCI(CSRRCI { csr, rd, zimm }),
                _ => Operation::UnknownOp(UnknownOp {  }),
            }
        },
        _ => Operation::UnknownOp(UnknownOp {  }),
    }
}

} // verus!
