//! The operations of the instruction set: one struct per mnemonic with its
//! bit-exact execution contract, and the closed `Operation` union that the
//! decoder produces, with total dispatch functions over it.

use vstd::prelude::*;
use crate::bus::{bus_in_range, check_range, spec_translate};
use crate::cpu::{Core, CoreView};
use crate::csr::NUM_CSR;
use crate::memory::{le16_at, le32_at};
use crate::reg::{reg_store, NUM_INT_REG};
use crate::trap::{Trap, TrapType, CAUSE_EBREAK, CAUSE_ECALL_FROM_M};
use crate::util::{
    get_csr_name, get_int_reg_name, shl32, shr32, spec_csr_name, spec_dec, spec_hex,
    spec_reg_name, sra32, u32_to_dec, u32_to_hex, wrap_add, wrap_sub,
};
use vstd::string::*;

verus! {

/// A fatal condition the execution loop cannot recover from: an
/// unrecognized encoding reached execution, or a memory access fell outside
/// the backing array.
#[derive(Clone, Copy, Debug, PartialEq, Eq, Structural)]
pub enum Fault {
    UnknownInstruction,
    OutOfRangeAccess,
}

/// An encoding no known operation matches.  Executing it is a fatal
/// `UnknownInstruction` fault; the struct itself only records the miss.
#[derive(Clone, Copy, Debug, PartialEq, Eq, Structural)]
pub struct UnknownOp {
}

/// Loads the upper-immediate into the destination register.
#[derive(Clone, Copy, Debug, PartialEq, Eq, Structural)]
pub struct LUI {
    pub rd: usize,
    pub imm: u32,
}

impl LUI {
    /// Register and CSR indices are in range.
    pub open spec fn wf(&self) -> bool {
        self.rd < NUM_INT_REG
    }

    pub fn execute(&self, core: &mut Core)
        requires
            old(core).wf(),
            self.wf(),
        ensures
            final(core).wf(),
            final(core)@ == old(core)@.with_regs(reg_store(old(core)@.regs, self.rd as int, self.imm)),
    {
        core.int_reg.write(self.rd, self.imm);
    }
}

/// Adds the upper-immediate to the program counter, with wraparound.
#[derive(Clone, Copy, Debug, PartialEq, Eq, Structural)]
pub struct AUIPC {
    pub rd: usize,
    pub imm: u32,
}

impl AUIPC {
    /// Register and CSR indices are in range.
    pub open spec fn wf(&self) -> bool {
        self.rd < NUM_INT_REG
    }

    pub fn execute(&self, core: &mut Core)
        requires
            old(core).wf(),
            self.wf(),
        ensures
            final(core).wf(),
            final(core)@ == old(core)@.with_regs(reg_store(old(core)@.regs, self.rd as int, wrap_add(old(core)@.pc, self.imm))),
    {
        let value: u32 = core.pc.wrapping_add(self.imm);
        core.int_reg.write(self.rd, value);
    }
}

/// Jumps relative to the program counter; the staged next-instruction address becomes the link value.
#[derive(Clone, Copy, Debug, PartialEq, Eq, Structural)]
pub struct JAL {
    pub rd: usize,
    pub imm: u32,
}

impl JAL {
    /// Register and CSR indices are in range.
    pub open spec fn wf(&self) -> bool {
        self.rd < NUM_INT_REG
    }

    pub fn execute(&self, core: &mut Core)
        requires
            old(core).wf(),
            self.wf(),
        ensures
            final(core).wf(),
            final(core)@ == old(core)@.with_regs(reg_store(old(core)@.regs, self.rd as int, old(core)@.next_pc)).with_next_pc(wrap_add(old(core)@.pc, self.imm)),
    {
        let next_pc: u32 = core.next_pc;
        core.next_pc = core.pc.wrapping_add(self.imm);
        core.int_reg.write(self.rd, next_pc);
    }
}

/// Jumps to a register-relative target; the staged next-instruction address becomes the link value.
#[derive(Clone, Copy, Debug, PartialEq, Eq, Structural)]
pub struct JALR {
    pub rd: usize,
    pub rs1: usize,
    pub imm: u32,
}

impl JALR {
    /// Register and CSR indices are in range.
    pub open spec fn wf(&self) -> bool {
        &&& self.rd < NUM_INT_REG
        &&& self.rs1 < NUM_INT_REG
    }

    pub fn execute(&self, core: &mut Core)
        requires
            old(core).wf(),
            self.wf(),
        ensures
            final(core).wf(),
            final(core)@ == old(core)@.with_regs(reg_store(old(core)@.regs, self.rd as int, old(core)@.next_pc)).with_next_pc(wrap_add(old(core)@.regs[self.rs1 as int], self.imm)),
    {
        let src1: u32 = core.int_reg.read(self.rs1);
        let next_pc: u32 = core.next_pc;
        core.next_pc = src1.wrapping_add(self.imm);
        core.int_reg.write(self.rd, next_pc);
    }
}

/// Branches relative to the program counter on equal operands.
#[derive(Clone, Copy, Debug, PartialEq, Eq, Structural)]
pub struct BEQ {
    pub rs1: usize,
    pub rs2: usize,
    pub imm: u32,
}

impl BEQ {
    /// Register and CSR indices are in range.
    pub open spec fn wf(&self) -> bool {
        &&& self.rs1 < NUM_INT_REG
        &&& self.rs2 < NUM_INT_REG
    }

    pub fn execute(&self, core: &mut Core)
        requires
            old(core).wf(),
            self.wf(),
        ensures
            final(core).wf(),
            final(core)@ == (if old(core)@.regs[self.rs1 as int] == old(core)@.regs[self.rs2 as int] {
                old(core)@.with_next_pc(wrap_add(old(core)@.pc, self.imm))
            } else {
                old(core)@
            }),
    {
        let src1: u32 = core.int_reg.read(self.rs1);
        let src2: u32 = core.int_reg.read(self.rs2);
        if src1 == src2 {
            core.next_pc = core.pc.wrapping_add(self.imm);
        }
    }
}

/// Branches relative to the program counter on unequal operands.
#[derive(Clone, Copy, Debug, PartialEq, Eq, Structural)]
pub struct BNE {
    pub rs1: usize,
    pub rs2: usize,
    pub imm: u32,
}

impl BNE {
    /// Register and CSR indices are in range.
    pub open spec fn wf(&self) -> bool {
        &&& self.rs1 < NUM_INT_REG
        &&& self.rs2 < NUM_INT_REG
    }

    pub fn execute(&self, core: &mut Core)
        requires
            old(core).wf(),
            self.wf(),
        ensures
            final(core).wf(),
            final(core)@ == (if old(core)@.regs[self.rs1 as int] != old(core)@.regs[self.rs2 as int] {
                old(core)@.with_next_pc(wrap_add(old(core)@.pc, self.imm))
            } else {
                old(core)@
            }),
    {
        let src1: u32 = core.int_reg.read(self.rs1);
        let src2: u32 = core.int_reg.read(self.rs2);
        if src1 != src2 {
            core.next_pc = core.pc.wrapping_add(self.imm);
        }
    }
}

/// Branches relative to the program counter on a signed less-than.
#[derive(Clone, Copy, Debug, PartialEq, Eq, Structural)]
pub struct BLT {
    pub rs1: usize,
    pub rs2: usize,
    pub imm: u32,
}

impl BLT {
    /// Register and CSR indices are in range.
    pub open spec fn wf(&self) -> bool {
        &&& self.rs1 < NUM_INT_REG
        &&& self.rs2 < NUM_INT_REG
    }

    pub fn execute(&self, core: &mut Core)
        requires
            old(core).wf(),
            self.wf(),
        ensures
            final(core).wf(),
            final(core)@ == (if (old(core)@.regs[self.rs1 as int] as i32) < (old(core)@.regs[self.rs2 as int] as i32) {
                old(core)@.with_next_pc(wrap_add(old(core)@.pc, self.imm))
            } else {
                old(core)@
            }),
    {
        let src1: i32 = core.int_reg.read(self.rs1) as i32;
        let src2: i32 = core.int_reg.read(self.rs2) as i32;
        if src1 < src2 {
            core.next_pc = core.pc.wrapping_add(self.imm);
        }
    }
}

/// Branches relative to the program counter on a signed greater-or-equal.
#[derive(Clone, Copy, Debug, PartialEq, Eq, Structural)]
pub struct BGE {
    pub rs1: usize,
    pub rs2: usize,
    pub imm: u32,
}

impl BGE {
    /// Register and CSR indices are in range.
    pub open spec fn wf(&self) -> bool {
        &&& self.rs1 < NUM_INT_REG
        &&& self.rs2 < NUM_INT_REG
    }

    pub fn execute(&self, core: &mut Core)
        requires
            old(core).wf(),
            self.wf(),
        ensures
            final(core).wf(),
            final(core)@ == (if (old(core)@.regs[self.rs1 as int] as i32) >= (old(core)@.regs[self.rs2 as int] as i32) {
                old(core)@.with_next_pc(wrap_add(old(core)@.pc, self.imm))
            } else {
                old(core)@
            }),
    {
        let src1: i32 = core.int_reg.read(self.rs1) as i32;
        let src2: i32 = core.int_reg.read(self.rs2) as i32;
        if src1 >= src2 {
            core.next_pc = core.pc.wrapping_add(self.imm);
        }
    }
}

/// Branches relative to the program counter on an unsigned less-than.
#[derive(Clone, Copy, Debug, PartialEq, Eq, Structural)]
pub struct BLTU {
    pub rs1: usize,
    pub rs2: usize,
    pub imm: u32,
}

impl BLTU {
    /// Register and CSR indices are in range.
    pub open spec fn wf(&self) -> bool {
        &&& self.rs1 < NUM_INT_REG
        &&& self.rs2 < NUM_INT_REG
    }

    pub fn execute(&self, core: &mut Core)
        requires
            old(core).wf(),
            self.wf(),
        ensures
            final(core).wf(),
            final(core)@ == (if old(core)@.regs[self.rs1 as int] < old(core)@.regs[self.rs2 as int] {
                old(core)@.with_next_pc(wrap_add(old(core)@.pc, self.imm))
            } else {
                old(core)@
            }),
    {
        let src1: u32 = core.int_reg.read(self.rs1);
        let src2: u32 = core.int_reg.read(self.rs2);
        if src1 < src2 {
            core.next_pc = core.pc.wrapping_add(self.imm);
        }
    }
}

/// Branches relative to the program counter on an unsigned greater-or-equal.
#[derive(Clone, Copy, Debug, PartialEq, Eq, Structural)]
pub struct BGEU {
    pub rs1: usize,
    pub rs2: usize,
    pub imm: u32,
}

impl BGEU {
    /// Register and CSR indices are in range.
    pub open spec fn wf(&self) -> bool {
        &&& self.rs1 < NUM_INT_REG
        &&& self.rs2 < NUM_INT_REG
    }

    pub fn execute(&self, core: &mut Core)
        requires
            old(core).wf(),
            self.wf(),
        ensures
            final(core).wf(),
            final(core)@ == (if old(core)@.regs[self.rs1 as int] >= old(core)@.regs[self.rs2 as int] {
                old(core)@.with_next_pc(wrap_add(old(core)@.pc, self.imm))
            } else {
                old(core)@
            }),
    {
        let src1: u32 = core.int_reg.read(self.rs1);
        let src2: u32 = core.int_reg.read(self.rs2);
        if src1 >= src2 {
            core.next_pc = core.pc.wrapping_add(self.imm);
        }
    }
}

/// Loads a byte from the register-relative address, read as an 8-bit
/// two's-complement value and sign-extended to 32 bits.
#[derive(Clone, Copy, Debug, PartialEq, Eq, Structural)]
pub struct LB {
    pub rd: usize,
    pub rs1: usize,
    pub imm: u32,
}

impl LB {
    /// Register and CSR indices are in range.
    pub open spec fn wf(&self) -> bool {
        &&& self.rd < NUM_INT_REG
        &&& self.rs1 < NUM_INT_REG
    }

    pub fn execute(&self, core: &mut Core)
        requires
            old(core).wf(),
            self.wf(),
            bus_in_range(wrap_add(old(core)@.regs[self.rs1 as int], self.imm), 1),
        ensures
            final(core).wf(),
            final(core)@ == old(core)@.with_regs(reg_store(old(core)@.regs, self.rd as int, ((old(core)@.mem[spec_translate(wrap_add(old(core)@.regs[self.rs1 as int], self.imm)) as int] as i8) as i32) as u32)),
    {
        let addr: u32 = core.int_reg.read(self.rs1).wrapping_add(self.imm);
        let value: u32 = core.bus.read_u8(addr) as i8 as i32 as u32;
        core.int_reg.write(self.rd, value);
    }
}

/// Loads a halfword from the register-relative address, read as a 16-bit
/// two's-complement value and sign-extended to 32 bits.
#[derive(Clone, Copy, Debug, PartialEq, Eq, Structural)]
pub struct LH {
    pub rd: usize,
    pub rs1: usize,
    pub imm: u32,
}

impl LH {
    /// Register and CSR indices are in range.
    pub open spec fn wf(&self) -> bool {
        &&& self.rd < NUM_INT_REG
        &&& self.rs1 < NUM_INT_REG
    }

    pub fn execute(&self, core: &mut Core)
        requires
            old(core).wf(),
            self.wf(),
            bus_in_range(wrap_add(old(core)@.regs[self.rs1 as int], self.imm), 2),
        ensures
            final(core).wf(),
            final(core)@ == old(core)@.with_regs(reg_store(old(core)@.regs, self.rd as int, ((le16_at(old(core)@.mem, spec_translate(wrap_add(old(core)@.regs[self.rs1 as int], self.imm)) as int) as i16) as i32) as u32)),
    {
        let addr: u32 = core.int_reg.read(self.rs1).wrapping_add(self.imm);
        let value: u32 = core.bus.read_u16(addr) as i16 as i32 as u32;
        core.int_reg.write(self.rd, value);
    }
}

/// Loads a word from the register-relative address.
#[derive(Clone, Copy, Debug, PartialEq, Eq, Structural)]
pub struct LW {
    pub rd: usize,
    pub rs1: usize,
    pub imm: u32,
}

impl LW {
    /// Register and CSR indices are in range.
    pub open spec fn wf(&self) -> bool {
        &&& self.rd < NUM_INT_REG
        &&& self.rs1 < NUM_INT_REG
    }

    pub fn execute(&self, core: &mut Core)
        requires
            old(core).wf(),
            self.wf(),
            bus_in_range(wrap_add(old(core)@.regs[self.rs1 as int], self.imm), 4),
        ensures
            final(core).wf(),
            final(core)@ == old(core)@.with_regs(reg_store(old(core)@.regs, self.rd as int, le32_at(old(core)@.mem, spec_translate(wrap_add(old(core)@.regs[self.rs1 as int], self.imm)) as int))),
    {
        let addr: u32 = core.int_reg.read(self.rs1).wrapping_add(self.imm);
        let value: u32 = core.bus.read_u32(addr);
        core.int_reg.write(self.rd, value);
    }
}

/// Loads a byte, zero-extended from the register-relative address.
#[derive(Clone, Copy, Debug, PartialEq, Eq, Structural)]
pub struct LBU {
    pub rd: usize,
    pub rs1: usize,
    pub imm: u32,
}

impl LBU {
    /// Register and CSR indices are in range.
    pub open spec fn wf(&self) -> bool {
        &&& self.rd < NUM_INT_REG
        &&& self.rs1 < NUM_INT_REG
    }

    pub fn execute(&self, core: &mut Core)
        requires
            old(core).wf(),
            self.wf(),
            bus_in_range(wrap_add(old(core)@.regs[self.rs1 as int], self.imm), 1),
        ensures
            final(core).wf(),
            final(core)@ == old(core)@.with_regs(reg_store(old(core)@.regs, self.rd as int, old(core)@.mem[spec_translate(wrap_add(old(core)@.regs[self.rs1 as int], self.imm)) as int] as u32)),
    {
        let addr: u32 = core.int_reg.read(self.rs1).wrapping_add(self.imm);
        let value: u32 = core.bus.read_u8(addr) as u32;
        core.int_reg.write(self.rd, value);
    }
}

/// Loads a halfword, zero-extended from the register-relative address.
#[derive(Clone, Copy, Debug, PartialEq, Eq, Structural)]
pub struct LHU {
    pub rd: usize,
    pub rs1: usize,
    pub imm: u32,
}

impl LHU {
    /// Register and CSR indices are in range.
    pub open spec fn wf(&self) -> bool {
        &&& self.rd < NUM_INT_REG
        &&& self.rs1 < NUM_INT_REG
    }

    pub fn execute(&self, core: &mut Core)
        requires
            old(core).wf(),
            self.wf(),
            bus_in_range(wrap_add(old(core)@.regs[self.rs1 as int], self.imm), 2),
        ensures
            final(core).wf(),
            final(core)@ == old(core)@.with_regs(reg_store(old(core)@.regs, self.rd as int, le16_at(old(core)@.mem, spec_translate(wrap_add(old(core)@.regs[self.rs1 as int], self.imm)) as int) as u32)),
    {
        let addr: u32 = core.int_reg.read(self.rs1).wrapping_add(self.imm);
        let value: u32 = core.bus.read_u16(addr) as u32;
        core.int_reg.write(self.rd, value);
    }
}

/// Stores the low byte of a register to the register-relative address.
#[derive(Clone, Copy, Debug, PartialEq, Eq, Structural)]
pub struct SB {
    pub rs1: usize,
    pub rs2: usize,
    pub imm: u32,
}

impl SB {
    /// Register and CSR indices are in range.
    pub open spec fn wf(&self) -> bool {
        &&& self.rs1 < NUM_INT_REG
        &&& self.rs2 < NUM_INT_REG
    }

    pub fn execute(&self, core: &mut Core)
        requires
            old(core).wf(),
            self.wf(),
            bus_in_range(wrap_add(old(core)@.regs[self.rs1 as int], self.imm), 1),
        ensures
            final(core).wf(),
            final(core)@ == old(core)@.with_mem(old(core)@.mem.update(spec_translate(wrap_add(old(core)@.regs[self.rs1 as int], self.imm)) as int, old(core)@.regs[self.rs2 as int] as u8)),
    {
        let addr: u32 = core.int_reg.read(self.rs1).wrapping_add(self.imm);
        let value: u8 = core.int_reg.read(self.rs2) as u8;
        core.bus.write_u8(addr, value);
    }
}

/// Stores the low halfword of a register, little-endian, to the register-relative address.
#[derive(Clone, Copy, Debug, PartialEq, Eq, Structural)]
pub struct SH {
    pub rs1: usize,
    pub rs2: usize,
    pub imm: u32,
}

impl SH {
    /// Register and CSR indices are in range.
    pub open spec fn wf(&self) -> bool {
        &&& self.rs1 < NUM_INT_REG
        &&& self.rs2 < NUM_INT_REG
    }

    pub fn execute(&self, core: &mut Core)
        requires
            old(core).wf(),
            self.wf(),
            bus_in_range(wrap_add(old(core)@.regs[self.rs1 as int], self.imm), 2),
        ensures
            final(core).wf(),
            ({
                let off = spec_translate(wrap_add(old(core)@.regs[self.rs1 as int], self.imm)) as int;
                let value = old(core)@.regs[self.rs2 as int] as u16;
                final(core)@ == old(core)@.with_mem(
                    old(core)@.mem.update(off, (value & 0xff) as u8).update(
                        off + 1,
                        ((value >> 8) & 0xff) as u8,
                    ),
                )
            }),
    {
        let addr: u32 = core.int_reg.read(self.rs1).wrapping_add(self.imm);
        let value: u16 = core.int_reg.read(self.rs2) as u16;
        core.bus.write_u16(addr, value);
    }
}

/// Stores a register, little-endian, to the register-relative address.
#[derive(Clone, Copy, Debug, PartialEq, Eq, Structural)]
pub struct SW {
    pub rs1: usize,
    pub rs2: usize,
    pub imm: u32,
}

impl SW {
    /// Register and CSR indices are in range.
    pub open spec fn wf(&self) -> bool {
        &&& self.rs1 < NUM_INT_REG
        &&& self.rs2 < NUM_INT_REG
    }

    pub fn execute(&self, core: &mut Core)
        requires
            old(core).wf(),
            self.wf(),
            bus_in_range(wrap_add(old(core)@.regs[self.rs1 as int], self.imm), 4),
        ensures
            final(core).wf(),
            ({
                let off = spec_translate(wrap_add(old(core)@.regs[self.rs1 as int], self.imm)) as int;
                let value = old(core)@.regs[self.rs2 as int];
                final(core)@ == old(core)@.with_mem(
                    old(core)@.mem.update(off, (value & 0xff) as u8).update(
                        off + 1,
                        ((value >> 8) & 0xff) as u8,
                    ).update(off + 2, ((value >> 16) & 0xff) as u8).update(
                        off + 3,
                        ((value >> 24) & 0xff) as u8,
                    ),
                )
            }),
    {
        let addr: u32 = core.int_reg.read(self.rs1).wrapping_add(self.imm);
        let value: u32 = core.int_reg.read(self.rs2);
        core.bus.write_u32(addr, value);
    }
}

/// Adds the immediate to a register, with wraparound.
#[derive(Clone, Copy, Debug, PartialEq, Eq, Structural)]
pub struct ADDI {
    pub rd: usize,
    pub rs1: usize,
    pub imm: u32,
}

impl ADDI {
    /// Register and CSR indices are in range.
    pub open spec fn wf(&self) -> bool {
        &&& self.rd < NUM_INT_REG
        &&& self.rs1 < NUM_INT_REG
    }

    pub fn execute(&self, core: &mut Core)
        requires
            old(core).wf(),
            self.wf(),
        ensures
            final(core).wf(),
            final(core)@ == old(core)@.with_regs(reg_store(old(core)@.regs, self.rd as int, wrap_add(old(core)@.regs[self.rs1 as int], self.imm))),
    {
        let value: u32 = core.int_reg.read(self.rs1).wrapping_add(self.imm);
        core.int_reg.write(self.rd, value);
    }
}

/// Sets the destination to 1 when the register is signed-less than the immediate.
#[derive(Clone, Copy, Debug, PartialEq, Eq, Structural)]
pub struct SLTI {
    pub rd: usize,
    pub rs1: usize,
    pub imm: u32,
}

impl SLTI {
    /// Register and CSR indices are in range.
    pub open spec fn wf(&self) -> bool {
        &&& self.rd < NUM_INT_REG
        &&& self.rs1 < NUM_INT_REG
    }

    pub fn execute(&self, core: &mut Core)
        requires
            old(core).wf(),
            self.wf(),
        ensures
            final(core).wf(),
            final(core)@ == old(core)@.with_regs(reg_store(old(core)@.regs, self.rd as int, if (old(core)@.regs[self.rs1 as int] as i32) < (self.imm as i32) {
                1u32
            } else {
                0u32
            })),
    {
        let src1: u32 = core.int_reg.read(self.rs1);
        let value: u32 = if (src1 as i32) < (self.imm as i32) { 1 } else { 0 };
        core.int_reg.write(self.rd, value);
    }
}

/// Sets the destination to 1 when the register is unsigned-less than the immediate.
#[derive(Clone, Copy, Debug, PartialEq, Eq, Structural)]
pub struct SLTIU {
    pub rd: usize,
    pub rs1: usize,
    pub imm: u32,
}

impl SLTIU {
    /// Register and CSR indices are in range.
    pub open spec fn wf(&self) -> bool {
        &&& self.rd < NUM_INT_REG
        &&& self.rs1 < NUM_INT_REG
    }

    pub fn execute(&self, core: &mut Core)
        requires
            old(core).wf(),
            self.wf(),
        ensures
            final(core).wf(),
            final(core)@ == old(core)@.with_regs(reg_store(old(core)@.regs, self.rd as int, if old(core)@.regs[self.rs1 as int] < self.imm {
                1u32
            } else {
                0u32
            })),
    {
        let src1: u32 = core.int_reg.read(self.rs1);
        let value: u32 = if src1 < self.imm { 1 } else { 0 };
        core.int_reg.write(self.rd, value);
    }
}

/// Exclusive-ors the immediate into a register.
#[derive(Clone, Copy, Debug, PartialEq, Eq, Structural)]
pub struct XORI {
    pub rd: usize,
    pub rs1: usize,
    pub imm: u32,
}

impl XORI {
    /// Register and CSR indices are in range.
    pub open spec fn wf(&self) -> bool {
        &&& self.rd < NUM_INT_REG
        &&& self.rs1 < NUM_INT_REG
    }

    pub fn execute(&self, core: &mut Core)
        requires
            old(core).wf(),
            self.wf(),
        ensures
            final(core).wf(),
            final(core)@ == old(core)@.with_regs(reg_store(old(core)@.regs, self.rd as int, old(core)@.regs[self.rs1 as int] ^ self.imm)),
    {
        let src1: u32 = core.int_reg.read(self.rs1);
        let value: u32 = src1 ^ self.imm;
        core.int_reg.write(self.rd, value);
    }
}

/// Ors the immediate into a register.
#[derive(Clone, Copy, Debug, PartialEq, Eq, Structural)]
pub struct ORI {
    pub rd: usize,
    pub rs1: usize,
    pub imm: u32,
}

impl ORI {
    /// Register and CSR indices are in range.
    pub open spec fn wf(&self) -> bool {
        &&& self.rd < NUM_INT_REG
        &&& self.rs1 < NUM_INT_REG
    }

    pub fn execute(&self, core: &mut Core)
        requires
            old(core).wf(),
            self.wf(),
        ensures
            final(core).wf(),
            final(core)@ == old(core)@.with_regs(reg_store(old(core)@.regs, self.rd as int, old(core)@.regs[self.rs1 as int] | self.imm)),
    {
        let src1: u32 = core.int_reg.read(self.rs1);
        let value: u32 = src1 | self.imm;
        core.int_reg.write(self.rd, value);
    }
}

/// Ands the immediate into a register.
#[derive(Clone, Copy, Debug, PartialEq, Eq, Structural)]
pub struct ANDI {
    pub rd: usize,
    pub rs1: usize,
    pub imm: u32,
}

impl ANDI {
    /// Register and CSR indices are in range.
    pub open spec fn wf(&self) -> bool {
        &&& self.rd < NUM_INT_REG
        &&& self.rs1 < NUM_INT_REG
    }

    pub fn execute(&self, core: &mut Core)
        requires
            old(core).wf(),
            self.wf(),
        ensures
            final(core).wf(),
            final(core)@ == old(core)@.with_regs(reg_store(old(core)@.regs, self.rd as int, old(core)@.regs[self.rs1 as int] & self.imm)),
    {
        let src1: u32 = core.int_reg.read(self.rs1);
        let value: u32 = src1 & self.imm;
        core.int_reg.write(self.rd, value);
    }
}

/// Shifts a register left by the immediate shift amount.
#[derive(Clone, Copy, Debug, PartialEq, Eq, Structural)]
pub struct SLLI {
    pub rd: usize,
    pub rs1: usize,
    pub shamt: u32,
}

impl SLLI {
    /// Register and CSR indices are in range.
    pub open spec fn wf(&self) -> bool {
        &&& self.rd < NUM_INT_REG
        &&& self.rs1 < NUM_INT_REG
    }

    pub fn execute(&self, core: &mut Core)
        requires
            old(core).wf(),
            self.wf(),
        ensures
            final(core).wf(),
            final(core)@ == old(core)@.with_regs(reg_store(old(core)@.regs, self.rd as int, shl32(old(core)@.regs[self.rs1 as int], self.shamt))),
    {
        let src1: u32 = core.int_reg.read(self.rs1);
        let value: u32 = src1.wrapping_shl(self.shamt);
        core.int_reg.write(self.rd, value);
    }
}

/// Shifts a register right, logically, by the immediate shift amount.
#[derive(Clone, Copy, Debug, PartialEq, Eq, Structural)]
pub struct SRLI {
    pub rd: usize,
    pub rs1: usize,
    pub shamt: u32,
}

impl SRLI {
    /// Register and CSR indices are in range.
    pub open spec fn wf(&self) -> bool {
        &&& self.rd < NUM_INT_REG
        &&& self.rs1 < NUM_INT_REG
    }

    pub fn execute(&self, core: &mut Core)
        requires
            old(core).wf(),
            self.wf(),
        ensures
            final(core).wf(),
            final(core)@ == old(core)@.with_regs(reg_store(old(core)@.regs, self.rd as int, shr32(old(core)@.regs[self.rs1 as int], self.shamt))),
    {
        let src1: u32 = core.int_reg.read(self.rs1);
        let value: u32 = src1.wrapping_shr(self.shamt);
        core.int_reg.write(self.rd, value);
    }
}

/// Shifts a register right, arithmetically, by the immediate shift amount.
#[derive(Clone, Copy, Debug, PartialEq, Eq, Structural)]
pub struct SRAI {
    pub rd: usize,
    pub rs1: usize,
    pub shamt: u32,
}

impl SRAI {
    /// Register and CSR indices are in range.
    pub open spec fn wf(&self) -> bool {
        &&& self.rd < NUM_INT_REG
        &&& self.rs1 < NUM_INT_REG
    }

    pub fn execute(&self, core: &mut Core)
        requires
            old(core).wf(),
            self.wf(),
        ensures
            final(core).wf(),
            final(core)@ == old(core)@.with_regs(reg_store(old(core)@.regs, self.rd as int, sra32(old(core)@.regs[self.rs1 as int], self.shamt))),
    {
        let src1: i32 = core.int_reg.read(self.rs1) as i32;
        let value: u32 = src1.wrapping_shr(self.shamt) as u32;
        core.int_reg.write(self.rd, value);
    }
}

/// Adds two registers, with wraparound.
#[derive(Clone, Copy, Debug, PartialEq, Eq, Structural)]
pub struct ADD {
    pub rd: usize,
    pub rs1: usize,
    pub rs2: usize,
}

impl ADD {
    /// Register and CSR indices are in range.
    pub open spec fn wf(&self) -> bool {
        &&& self.rd < NUM_INT_REG
        &&& self.rs1 < NUM_INT_REG
        &&& self.rs2 < NUM_INT_REG
    }

    pub fn execute(&self, core: &mut Core)
        requires
            old(core).wf(),
            self.wf(),
        ensures
            final(core).wf(),
            final(core)@ == old(core)@.with_regs(reg_store(old(core)@.regs, self.rd as int, wrap_add(old(core)@.regs[self.rs1 as int], old(core)@.regs[self.rs2 as int]))),
    {
        let src1: u32 = core.int_reg.read(self.rs1);
        let src2: u32 = core.int_reg.read(self.rs2);
        let value: u32 = src1.wrapping_add(src2);
        core.int_reg.write(self.rd, value);
    }
}

/// Subtracts one register from another, with wraparound.
#[derive(Clone, Copy, Debug, PartialEq, Eq, Structural)]
pub struct SUB {
    pub rd: usize,
    pub rs1: usize,
    pub rs2: usize,
}

impl SUB {
    /// Register and CSR indices are in range.
    pub open spec fn wf(&self) -> bool {
        &&& self.rd < NUM_INT_REG
        &&& self.rs1 < NUM_INT_REG
        &&& self.rs2 < NUM_INT_REG
    }

    pub fn execute(&self, core: &mut Core)
        requires
            old(core).wf(),
            self.wf(),
        ensures
            final(core).wf(),
            final(core)@ == old(core)@.with_regs(reg_store(old(core)@.regs, self.rd as int, wrap_sub(old(core)@.regs[self.rs1 as int], old(core)@.regs[self.rs2 as int]))),
    {
        let src1: u32 = core.int_reg.read(self.rs1);
        let src2: u32 = core.int_reg.read(self.rs2);
        let value: u32 = src1.wrapping_sub(src2);
        core.int_reg.write(self.rd, value);
    }
}

/// Shifts a register left by the amount in another register.
#[derive(Clone, Copy, Debug, PartialEq, Eq, Structural)]
pub struct SLL {
    pub rd: usize,
    pub rs1: usize,
    pub rs2: usize,
}

impl SLL {
    /// Register and CSR indices are in range.
    pub open spec fn wf(&self) -> bool {
        &&& self.rd < NUM_INT_REG
        &&& self.rs1 < NUM_INT_REG
        &&& self.rs2 < NUM_INT_REG
    }

    pub fn execute(&self, core: &mut Core)
        requires
            old(core).wf(),
            self.wf(),
        ensures
            final(core).wf(),
            final(core)@ == old(core)@.with_regs(reg_store(old(core)@.regs, self.rd as int, shl32(old(core)@.regs[self.rs1 as int], old(core)@.regs[self.rs2 as int]))),
    {
        let src1: u32 = core.int_reg.read(self.rs1);
        let src2: u32 = core.int_reg.read(self.rs2);
        let value: u32 = src1.wrapping_shl(src2);
        core.int_reg.write(self.rd, value);
    }
}

/// Sets the destination to 1 on a signed less-than of two registers.
#[derive(Clone, Copy, Debug, PartialEq, Eq, Structural)]
pub struct SLT {
    pub rd: usize,
    pub rs1: usize,
    pub rs2: usize,
}

impl SLT {
    /// Register and CSR indices are in range.
    pub open spec fn wf(&self) -> bool {
        &&& self.rd < NUM_INT_REG
        &&& self.rs1 < NUM_INT_REG
        &&& self.rs2 < NUM_INT_REG
    }

    pub fn execute(&self, core: &mut Core)
        requires
            old(core).wf(),
            self.wf(),
        ensures
            final(core).wf(),
            final(core)@ == old(core)@.with_regs(reg_store(old(core)@.regs, self.rd as int, if (old(core)@.regs[self.rs1 as int] as i32) < (old(core)@.regs[self.rs2 as int] as i32) {
                1u32
            } else {
                0u32
            })),
    {
        let src1: u32 = core.int_reg.read(self.rs1);
        let src2: u32 = core.int_reg.read(self.rs2);
        let value: u32 = if (src1 as i32) < (src2 as i32) { 1 } else { 0 };
        core.int_reg.write(self.rd, value);
    }
}

/// Sets the destination to 1 on an unsigned less-than of two registers.
#[derive(Clone, Copy, Debug, PartialEq, Eq, Structural)]
pub struct SLTU {
    pub rd: usize,
    pub rs1: usize,
    pub rs2: usize,
}

impl SLTU {
    /// Register and CSR indices are in range.
    pub open spec fn wf(&self) -> bool {
        &&& self.rd < NUM_INT_REG
        &&& self.rs1 < NUM_INT_REG
        &&& self.rs2 < NUM_INT_REG
    }

    pub fn execute(&self, core: &mut Core)
        requires
            old(core).wf(),
            self.wf(),
        ensures
            final(core).wf(),
            final(core)@ == old(core)@.with_regs(reg_store(old(core)@.regs, self.rd as int, if old(core)@.regs[self.rs1 as int] < old(core)@.regs[self.rs2 as int] {
                1u32
            } else {
                0u32
            })),
    {
        let src1: u32 = core.int_reg.read(self.rs1);
        let src2: u32 = core.int_reg.read(self.rs2);
        let value: u32 = if src1 < src2 { 1 } else { 0 };
        core.int_reg.write(self.rd, value);
    }
}

/// Exclusive-ors two registers.
#[derive(Clone, Copy, Debug, PartialEq, Eq, Structural)]
pub struct XOR {
    pub rd: usize,
    pub rs1: usize,
    pub rs2: usize,
}

impl XOR {
    /// Register and CSR indices are in range.
    pub open spec fn wf(&self) -> bool {
        &&& self.rd < NUM_INT_REG
        &&& self.rs1 < NUM_INT_REG
        &&& self.rs2 < NUM_INT_REG
    }

    pub fn execute(&self, core: &mut Core)
        requires
            old(core).wf(),
            self.wf(),
        ensures
            final(core).wf(),
            final(core)@ == old(core)@.with_regs(reg_store(old(core)@.regs, self.rd as int, old(core)@.regs[self.rs1 as int] ^ old(core)@.regs[self.rs2 as int])),
    {
        let src1: u32 = core.int_reg.read(self.rs1);
        let src2: u32 = core.int_reg.read(self.rs2);
        let value: u32 = src1 ^ src2;
        core.int_reg.write(self.rd, value);
    }
}

/// Shifts a register right, logically, by the amount in another register.
#[derive(Clone, Copy, Debug, PartialEq, Eq, Structural)]
pub struct SRL {
    pub rd: usize,
    pub rs1: usize,
    pub rs2: usize,
}

impl SRL {
    /// Register and CSR indices are in range.
    pub open spec fn wf(&self) -> bool {
        &&& self.rd < NUM_INT_REG
        &&& self.rs1 < NUM_INT_REG
        &&& self.rs2 < NUM_INT_REG
    }

    pub fn execute(&self, core: &mut Core)
        requires
            old(core).wf(),
            self.wf(),
        ensures
            final(core).wf(),
            final(core)@ == old(core)@.with_regs(reg_store(old(core)@.regs, self.rd as int, shr32(old(core)@.regs[self.rs1 as int], old(core)@.regs[self.rs2 as int]))),
    {
        let src1: u32 = core.int_reg.read(self.rs1);
        let src2: u32 = core.int_reg.read(self.rs2);
        let value: u32 = src1.wrapping_shr(src2);
        core.int_reg.write(self.rd, value);
    }
}

/// Shifts a register right, arithmetically, by the amount in another register.
#[derive(Clone, Copy, Debug, PartialEq, Eq, Structural)]
pub struct SRA {
    pub rd: usize,
    pub rs1: usize,
    pub rs2: usize,
}

impl SRA {
    /// Register and CSR indices are in range.
    pub open spec fn wf(&self) -> bool {
        &&& self.rd < NUM_INT_REG
        &&& self.rs1 < NUM_INT_REG
        &&& self.rs2 < NUM_INT_REG
    }

    pub fn execute(&self, core: &mut Core)
        requires
            old(core).wf(),
            self.wf(),
        ensures
            final(core).wf(),
            final(core)@ == old(core)@.with_regs(reg_store(old(core)@.regs, self.rd as int, sra32(old(core)@.regs[self.rs1 as int], old(core)@.regs[self.rs2 as int]))),
    {
        let src1: u32 = core.int_reg.read(self.rs1);
        let src2: u32 = core.int_reg.read(self.rs2);
        let value: u32 = (src1 as i32).wrapping_shr(src2) as u32;
        core.int_reg.write(self.rd, value);
    }
}

/// Ors two registers.
#[derive(Clone, Copy, Debug, PartialEq, Eq, Structural)]
pub struct OR {
    pub rd: usize,
    pub rs1: usize,
    pub rs2: usize,
}

impl OR {
    /// Register and CSR indices are in range.
    pub open spec fn wf(&self) -> bool {
        &&& self.rd < NUM_INT_REG
        &&& self.rs1 < NUM_INT_REG
        &&& self.rs2 < NUM_INT_REG
    }

    pub fn execute(&self, core: &mut Core)
        requires
            old(core).wf(),
            self.wf(),
        ensures
            final(core).wf(),
            final(core)@ == old(core)@.with_regs(reg_store(old(core)@.regs, self.rd as int, old(core)@.regs[self.rs1 as int] | old(core)@.regs[self.rs2 as int])),
    {
        let src1: u32 = core.int_reg.read(self.rs1);
        let src2: u32 = core.int_reg.read(self.rs2);
        let value: u32 = src1 | src2;
        core.int_reg.write(self.rd, value);
    }
}

/// Ands two registers.
#[derive(Clone, Copy, Debug, PartialEq, Eq, Structural)]
pub struct AND {
    pub rd: usize,
    pub rs1: usize,
    pub rs2: usize,
}

impl AND {
    /// Register and CSR indices are in range.
    pub open spec fn wf(&self) -> bool {
        &&& self.rd < NUM_INT_REG
        &&& self.rs1 < NUM_INT_REG
        &&& self.rs2 < NUM_INT_REG
    }

    pub fn execute(&self, core: &mut Core)
        requires
            old(core).wf(),
            self.wf(),
        ensures
            final(core).wf(),
            final(core)@ == old(core)@.with_regs(reg_store(old(core)@.regs, self.rd as int, old(core)@.regs[self.rs1 as int] & old(core)@.regs[self.rs2 as int])),
    {
        let src1: u32 = core.int_reg.read(self.rs1);
        let src2: u32 = core.int_reg.read(self.rs2);
        let value: u32 = src1 & src2;
        core.int_reg.write(self.rd, value);
    }
}

/// A memory-ordering hint: no observable effect in this single-hart, uncached model.
#[derive(Clone, Copy, Debug, PartialEq, Eq, Structural)]
pub struct FENCE {
    pub pred: u32,
    pub succ: u32,
}

impl FENCE {
    pub fn execute(&self, _core: &mut Core)
        ensures
            *final(_core) == *old(_core),
    {
    }
}

/// An instruction-stream synchronization hint: no observable effect here.
#[derive(Clone, Copy, Debug, PartialEq, Eq, Structural)]
pub struct FENCEI {
}

impl FENCEI {
    pub fn execute(&self, _core: &mut Core)
        ensures
            *final(_core) == *old(_core),
    {
    }
}

/// An environment call: raises the machine-mode environment-call exception after execution.
#[derive(Clone, Copy, Debug, PartialEq, Eq, Structural)]
pub struct ECALL {
}

impl ECALL {
    pub fn execute(&self, _core: &mut Core)
        ensures
            *final(_core) == *old(_core),
    {
    }

    pub fn post_check_trap(&self, core: &mut Core) -> (t: Option<Trap>)
        ensures
            *final(core) == *old(core),
            t == Some(Trap { trap_type: TrapType::Exception, cause: CAUSE_ECALL_FROM_M, value: 0, pc: old(core).pc }),
    {
        Some(Trap::new_ecall_from_machine(core.pc))
    }
}

/// A breakpoint: raises the breakpoint exception after execution.
#[derive(Clone, Copy, Debug, PartialEq, Eq, Structural)]
pub struct EBREAK {
}

impl EBREAK {
    pub fn execute(&self, _core: &mut Core)
        ensures
            *final(_core) == *old(_core),
    {
    }

    pub fn post_check_trap(&self, core: &mut Core) -> (t: Option<Trap>)
        ensures
            *final(core) == *old(core),
            t == Some(Trap { trap_type: TrapType::Exception, cause: CAUSE_EBREAK, value: 0, pc: old(core).pc }),
    {
        Some(Trap::new_ebreak(core.pc))
    }
}

/// Replaces a CSR with a register; the destination receives the pre-modification value.
#[derive(Clone, Copy, Debug, PartialEq, Eq, Structural)]
pub struct CSRRW {
    pub csr: usize,
    pub rd: usize,
    pub rs1: usize,
}

impl CSRRW {
    /// Register and CSR indices are in range.
    pub open spec fn wf(&self) -> bool {
        &&& self.csr < NUM_CSR
        &&& self.rd < NUM_INT_REG
        &&& self.rs1 < NUM_INT_REG
    }

    pub fn execute(&self, core: &mut Core)
        requires
            old(core).wf(),
            self.wf(),
        ensures
            final(core).wf(),
            final(core)@ == old(core)@.with_csrs(old(core)@.csrs.update(self.csr as int, old(core)@.regs[self.rs1 as int])).with_regs(reg_store(old(core)@.regs, self.rd as int, old(core)@.csrs[self.csr as int])),
    {
        let org: u32 = core.csr.read(self.csr);
        let value: u32 = core.int_reg.read(self.rs1);
        core.csr.write(self.csr, value);
        core.int_reg.write(self.rd, org);
    }
}

/// Sets CSR bits from a register; the destination receives the pre-modification value.
#[derive(Clone, Copy, Debug, PartialEq, Eq, Structural)]
pub struct CSRRS {
    pub csr: usize,
    pub rd: usize,
    pub rs1: usize,
}

impl CSRRS {
    /// Register and CSR indices are in range.
    pub open spec fn wf(&self) -> bool {
        &&& self.csr < NUM_CSR
        &&& self.rd < NUM_INT_REG
        &&& self.rs1 < NUM_INT_REG
    }

    pub fn execute(&self, core: &mut Core)
        requires
            old(core).wf(),
            self.wf(),
        ensures
            final(core).wf(),
            final(core)@ == old(core)@.with_csrs(old(core)@.csrs.update(self.csr as int, old(core)@.csrs[self.csr as int] | old(core)@.regs[self.rs1 as int])).with_regs(reg_store(old(core)@.regs, self.rd as int, old(core)@.csrs[self.csr as int])),
    {
        let org: u32 = core.csr.read(self.csr);
        let value: u32 = org | core.int_reg.read(self.rs1);
        core.csr.write(self.csr, value);
        core.int_reg.write(self.rd, org);
    }
}

/// Clears CSR bits from a register; the destination receives the pre-modification value.
#[derive(Clone, Copy, Debug, PartialEq, Eq, Structural)]
pub struct CSRRC {
    pub csr: usize,
    pub rd: usize,
    pub rs1: usize,
}

impl CSRRC {
    /// Register and CSR indices are in range.
    pub open spec fn wf(&self) -> bool {
        &&& self.csr < NUM_CSR
        &&& self.rd < NUM_INT_REG
        &&& self.rs1 < NUM_INT_REG
    }

    pub fn execute(&self, core: &mut Core)
        requires
            old(core).wf(),
            self.wf(),
        ensures
            final(core).wf(),
            final(core)@ == old(core)@.with_csrs(old(core)@.csrs.update(self.csr as int, old(core)@.csrs[self.csr as int] & !old(core)@.regs[self.rs1 as int])).with_regs(reg_store(old(core)@.regs, self.rd as int, old(core)@.csrs[self.csr as int])),
    {
        let org: u32 = core.csr.read(self.csr);
        let value: u32 = org & !core.int_reg.read(self.rs1);
        core.csr.write(self.csr, value);
        core.int_reg.write(self.rd, org);
    }
}

/// Replaces a CSR with a zero-extended immediate; the destination receives the pre-modification value.
#[derive(Clone, Copy, Debug, PartialEq, Eq, Structural)]
pub struct CSRRWI {
    pub csr: usize,
    pub rd: usize,
    pub zimm: u32,
}

impl CSRRWI {
    /// Register and CSR indices are in range.
    pub open spec fn wf(&self) -> bool {
        &&& self.csr < NUM_CSR
        &&& self.rd < NUM_INT_REG
    }

    pub fn execute(&self, core: &mut Core)
        requires
            old(core).wf(),
            self.wf(),
        ensures
            final(core).wf(),
            final(core)@ == old(core)@.with_csrs(old(core)@.csrs.update(self.csr as int, self.zimm)).with_regs(reg_store(old(core)@.regs, self.rd as int, old(core)@.csrs[self.csr as int])),
    {
        let org: u32 = core.csr.read(self.csr);
        let value: u32 = self.zimm;
        core.csr.write(self.csr, value);
        core.int_reg.write(self.rd, org);
    }
}

/// Sets CSR bits from a zero-extended immediate; the destination receives the pre-modification value.
#[derive(Clone, Copy, Debug, PartialEq, Eq, Structural)]
pub struct CSRRSI {
    pub csr: usize,
    pub rd: usize,
    pub zimm: u32,
}

impl CSRRSI {
    /// Register and CSR indices are in range.
    pub open spec fn wf(&self) -> bool {
        &&& self.csr < NUM_CSR
        &&& self.rd < NUM_INT_REG
    }

    pub fn execute(&self, core: &mut Core)
        requires
            old(core).wf(),
            self.wf(),
        ensures
            final(core).wf(),
            final(core)@ == old(core)@.with_csrs(old(core)@.csrs.update(self.csr as int, old(core)@.csrs[self.csr as int] | self.zimm)).with_regs(reg_store(old(core)@.regs, self.rd as int, old(core)@.csrs[self.csr as int])),
    {
        let org: u32 = core.csr.read(self.csr);
        let value: u32 = org | self.zimm;
        core.csr.write(self.csr, value);
        core.int_reg.write(self.rd, org);
    }
}

/// Clears CSR bits from a zero-extended immediate; the destination receives the pre-modification value.
#[derive(Clone, Copy, Debug, PartialEq, Eq, Structural)]
pub struct CSRRCI {
    pub csr: usize,
    pub rd: usize,
    pub zimm: u32,
}

impl CSRRCI {
    /// Register and CSR indices are in range.
    pub open spec fn wf(&self) -> bool {
        &&& self.csr < NUM_CSR
        &&& self.rd < NUM_INT_REG
    }

    pub fn execute(&self, core: &mut Core)
        requires
            old(core).wf(),
            self.wf(),
        ensures
            final(core).wf(),
            final(core)@ == old(core)@.with_csrs(old(core)@.csrs.update(self.csr as int, old(core)@.csrs[self.csr as int] & !self.zimm)).with_regs(reg_store(old(core)@.regs, self.rd as int, old(core)@.csrs[self.csr as int])),
    {
        let org: u32 = core.csr.read(self.csr);
        let value: u32 = org & !self.zimm;
        core.csr.write(self.csr, value);
        core.int_reg.write(self.rd, org);
    }
}

/// A privileged return: raises the trap-return diversion after execution.
#[derive(Clone, Copy, Debug, PartialEq, Eq, Structural)]
pub struct URET {
}

impl URET {
    pub fn execute(&self, _core: &mut Core)
        ensures
            *final(_core) == *old(_core),
    {
    }

    pub fn post_check_trap(&self, core: &mut Core) -> (t: Option<Trap>)
        ensures
            *final(core) == *old(core),
            t == Some(Trap { trap_type: TrapType::TrapReturn, cause: 0, value: 0, pc: old(core).pc }),
    {
        Some(Trap::new_trap_return(core.pc))
    }
}

/// A privileged return: raises the trap-return diversion after execution.
#[derive(Clone, Copy, Debug, PartialEq, Eq, Structural)]
pub struct SRET {
}

impl SRET {
    pub fn execute(&self, _core: &mut Core)
        ensures
            *final(_core) == *old(_core),
    {
    }

    pub fn post_check_trap(&self, core: &mut Core) -> (t: Option<Trap>)
        ensures
            *final(core) == *old(core),
            t == Some(Trap { trap_type: TrapType::TrapReturn, cause: 0, value: 0, pc: old(core).pc }),
    {
        Some(Trap::new_trap_return(core.pc))
    }
}

/// A privileged return: raises the trap-return diversion after execution.
#[derive(Clone, Copy, Debug, PartialEq, Eq, Structural)]
pub struct MRET {
}

impl MRET {
    pub fn execute(&self, _core: &mut Core)
        ensures
            *final(_core) == *old(_core),
    {
    }

    pub fn post_check_trap(&self, core: &mut Core) -> (t: Option<Trap>)
        ensures
            *final(core) == *old(core),
            t == Some(Trap { trap_type: TrapType::TrapReturn, cause: 0, value: 0, pc: old(core).pc }),
    {
        Some(Trap::new_trap_return(core.pc))
    }
}

/// A wait-for-interrupt hint: no observable effect here.
#[derive(Clone, Copy, Debug, PartialEq, Eq, Structural)]
pub struct WFI {
}

impl WFI {
    pub fn execute(&self, _core: &mut Core)
        ensures
            *final(_core) == *old(_core),
    {
    }
}

/// An address-translation fence hint: no observable effect here.
#[derive(Clone, Copy, Debug, PartialEq, Eq, Structural)]
pub struct SFENCEVMA {
}

impl SFENCEVMA {
    pub fn execute(&self, _core: &mut Core)
        ensures
            *final(_core) == *old(_core),
    {
    }
}

/// The closed union of every operation the decoder can produce.
#[derive(Clone, Copy, Debug, PartialEq, Eq, Structural)]
pub enum Operation {
    UnknownOp(UnknownOp),
    LUI(LUI),
    AUIPC(AUIPC),
    JAL(JAL),
    JALR(JALR),
    BEQ(BEQ),
    BNE(BNE),
    BLT(BLT),
    BGE(BGE),
    BLTU(BLTU),
    BGEU(BGEU),
    LB(LB),
    LH(LH),
    LW(LW),
    LBU(LBU),
    LHU(LHU),
    SB(SB),
    SH(SH),
    SW(SW),
    ADDI(ADDI),
    SLTI(SLTI),
    SLTIU(SLTIU),
    XORI(XORI),
    ORI(ORI),
    ANDI(ANDI),
    SLLI(SLLI),
    SRLI(SRLI),
    SRAI(SRAI),
    ADD(ADD),
    SUB(SUB),
    SLL(SLL),
    SLT(SLT),
    SLTU(SLTU),
    XOR(XOR),
    SRL(SRL),
    SRA(SRA),
    OR(OR),
    AND(AND),
    FENCE(FENCE),
    FENCEI(FENCEI),
    ECALL(ECALL),
    EBREAK(EBREAK),
    CSRRW(CSRRW),
    CSRRS(CSRRS),
    CSRRC(CSRRC),
    CSRRWI(CSRRWI),
    CSRRSI(CSRRSI),
    CSRRCI(CSRRCI),
    URET(URET),
    SRET(SRET),
    MRET(MRET),
    WFI(WFI),
    SFENCEVMA(SFENCEVMA),
}

/// What executing `op` does to hart state `v`: either a fault, leaving the
/// state as it stands, or the follow-on state.  The staged `next_pc` is read
/// as the link value by the jumps and overwritten by every control-flow
/// operation.
pub open spec fn spec_execute(op: Operation, v: CoreView) -> (Option<Fault>, CoreView) {
    match op {
        Operation::UnknownOp(_o) => (Some(Fault::UnknownInstruction), v),
        Operation::LUI(o) => (None, v.with_regs(reg_store(v.regs, o.rd as int, o.imm))),
        Operation::AUIPC(o) => (None, v.with_regs(reg_store(v.regs, o.rd as int, wrap_add(v.pc, o.imm)))),
        Operation::JAL(o) => (None, v.with_regs(reg_store(v.regs, o.rd as int, v.next_pc)).with_next_pc(wrap_add(v.pc, o.imm))),
        Operation::JALR(o) => (None, v.with_regs(reg_store(v.regs, o.rd as int, v.next_pc)).with_next_pc(wrap_add(v.regs[o.rs1 as int], o.imm))),
        Operation::BEQ(o) => (
            None,
            if v.regs[o.rs1 as int] == v.regs[o.rs2 as int] {
                v.with_next_pc(wrap_add(v.pc, o.imm))
            } else {
                v
            },
        ),
        Operation::BNE(o) => (
            None,
            if v.regs[o.rs1 as int] != v.regs[o.rs2 as int] {
                v.with_next_pc(wrap_add(v.pc, o.imm))
            } else {
                v
            },
        ),
        Operation::BLT(o) => (
            None,
            if (v.regs[o.rs1 as int] as i32) < (v.regs[o.rs2 as int] as i32) {
                v.with_next_pc(wrap_add(v.pc, o.imm))
            } else {
                v
            },
        ),
        Operation::BGE(o) => (
            None,
            if (v.regs[o.rs1 as int] as i32) >= (v.regs[o.rs2 as int] as i32) {
                v.with_next_pc(wrap_add(v.pc, o.imm))
            } else {
                v
            },
        ),
        Operation::BLTU(o) => (
            None,
            if v.regs[o.rs1 as int] < v.regs[o.rs2 as int] {
                v.with_next_pc(wrap_add(v.pc, o.imm))
            } else {
                v
            },
        ),
        Operation::BGEU(o) => (
            None,
            if v.regs[o.rs1 as int] >= v.regs[o.rs2 as int] {
                v.with_next_pc(wrap_add(v.pc, o.imm))
            } else {
                v
            },
        ),
        Operation::LB(o) => ({
            let addr = wrap_add(v.regs[o.rs1 as int], o.imm);
            if bus_in_range(addr, 1) {
                (None, v.with_regs(reg_store(v.regs, o.rd as int, ((v.mem[spec_translate(addr) as int] as i8) as i32) as u32)))
            } else {
                (Some(Fault::OutOfRangeAccess), v)
            }
        }),
        Operation::LH(o) => ({
            let addr = wrap_add(v.regs[o.rs1 as int], o.imm);
            if bus_in_range(addr, 2) {
                (None, v.with_regs(reg_store(v.regs, o.rd as int, ((le16_at(v.mem, spec_translate(addr) as int) as i16) as i32) as u32)))
            } else {
                (Some(Fault::OutOfRangeAccess), v)
            }
        }),
        Operation::LW(o) => ({
            let addr = wrap_add(v.regs[o.rs1 as int], o.imm);
            if bus_in_range(addr, 4) {
                (None, v.with_regs(reg_store(v.regs, o.rd as int, le32_at(v.mem, spec_translate(addr) as int))))
            } else {
                (Some(Fault::OutOfRangeAccess), v)
            }
        }),
        Operation::LBU(o) => ({
            let addr = wrap_add(v.regs[o.rs1 as int], o.imm);
            if bus_in_range(addr, 1) {
                (None, v.with_regs(reg_store(v.regs, o.rd as int, v.mem[spec_translate(addr) as int] as u32)))
            } else {
                (Some(Fault::OutOfRangeAccess), v)
            }
        }),
        Operation::LHU(o) => ({
            let addr = wrap_add(v.regs[o.rs1 as int], o.imm);
            if bus_in_range(addr, 2) {
                (None, v.with_regs(reg_store(v.regs, o.rd as int, le16_at(v.mem, spec_translate(addr) as int) as u32)))
            } else {
                (Some(Fault::OutOfRangeAccess), v)
            }
        }),
        Operation::SB(o) => ({
            let addr = wrap_add(v.regs[o.rs1 as int], o.imm);
            if bus_in_range(addr, 1) {
                (None, v.with_mem(v.mem.update(spec_translate(addr) as int, v.regs[o.rs2 as int] as u8)))
            } else {
                (Some(Fault::OutOfRangeAccess), v)
            }
        }),
        Operation::SH(o) => ({
            let addr = wrap_add(v.regs[o.rs1 as int], o.imm);
            let off = spec_translate(addr) as int;
            let value = v.regs[o.rs2 as int] as u16;
            if bus_in_range(addr, 2) {
                (
                    None,
                    v.with_mem(
                        v.mem.update(off, (value & 0xff) as u8).update(
                            off + 1,
                            ((value >> 8) & 0xff) as u8,
                        ),
                    ),
                )
            } else {
                (Some(Fault::OutOfRangeAccess), v)
            }
        }),
        Operation::SW(o) => ({
            let addr = wrap_add(v.regs[o.rs1 as int], o.imm);
            let off = spec_translate(addr) as int;
            let value = v.regs[o.rs2 as int];
            if bus_in_range(addr, 4) {
                (
                    None,
                    v.with_mem(
                        v.mem.update(off, (value & 0xff) as u8).update(
                            off + 1,
                            ((value >> 8) & 0xff) as u8,
                        ).update(off + 2, ((value >> 16) & 0xff) as u8).update(
                            off + 3,
                            ((value >> 24) & 0xff) as u8,
                        ),
                    ),
                )
            } else {
                (Some(Fault::OutOfRangeAccess), v)
            }
        }),
        Operation::ADDI(o) => (None, v.with_regs(reg_store(v.regs, o.rd as int, wrap_add(v.regs[o.rs1 as int], o.imm)))),
        Operation::SLTI(o) => (None, v.with_regs(reg_store(v.regs, o.rd as int, if (v.regs[o.rs1 as int] as i32) < (o.imm as i32) {
                1u32
            } else {
                0u32
            }))),
        Operation::SLTIU(o) => (None, v.with_regs(reg_store(v.regs, o.rd as int, if v.regs[o.rs1 as int] < o.imm {
                1u32
            } else {
                0u32
            }))),
        Operation::XORI(o) => (None, v.with_regs(reg_store(v.regs, o.rd as int, v.regs[o.rs1 as int] ^ o.imm))),
        Operation::ORI(o) => (None, v.with_regs(reg_store(v.regs, o.rd as int, v.regs[o.rs1 as int] | o.imm))),
        Operation::ANDI(o) => (None, v.with_regs(reg_store(v.regs, o.rd as int, v.regs[o.rs1 as int] & o.imm))),
        Operation::SLLI(o) => (None, v.with_regs(reg_store(v.regs, o.rd as int, shl32(v.regs[o.rs1 as int], o.shamt)))),
        Operation::SRLI(o) => (None, v.with_regs(reg_store(v.regs, o.rd as int, shr32(v.regs[o.rs1 as int], o.shamt)))),
        Operation::SRAI(o) => (None, v.with_regs(reg_store(v.regs, o.rd as int, sra32(v.regs[o.rs1 as int], o.shamt)))),
        Operation::ADD(o) => (None, v.with_regs(reg_store(v.regs, o.rd as int, wrap_add(v.regs[o.rs1 as int], v.regs[o.rs2 as int])))),
        Operation::SUB(o) => (None, v.with_regs(reg_store(v.regs, o.rd as int, wrap_sub(v.regs[o.rs1 as int], v.regs[o.rs2 as int])))),
        Operation::SLL(o) => (None, v.with_regs(reg_store(v.regs, o.rd as int, shl32(v.regs[o.rs1 as int], v.regs[o.rs2 as int])))),
        Operation::SLT(o) => (None, v.with_regs(reg_store(v.regs, o.rd as int, if (v.regs[o.rs1 as int] as i32) < (v.regs[o.rs2 as int] as i32) {
                1u32
            } else {
                0u32
            }))),
        Operation::SLTU(o) => (None, v.with_regs(reg_store(v.regs, o.rd as int, if v.regs[o.rs1 as int] < v.regs[o.rs2 as int] {
                1u32
            } else {
                0u32
            }))),
        Operation::XOR(o) => (None, v.with_regs(reg_store(v.regs, o.rd as int, v.regs[o.rs1 as int] ^ v.regs[o.rs2 as int]))),
        Operation::SRL(o) => (None, v.with_regs(reg_store(v.regs, o.rd as int, shr32(v.regs[o.rs1 as int], v.regs[o.rs2 as int])))),
        Operation::SRA(o) => (None, v.with_regs(reg_store(v.regs, o.rd as int, sra32(v.regs[o.rs1 as int], v.regs[o.rs2 as int])))),
        Operation::OR(o) => (None, v.with_regs(reg_store(v.regs, o.rd as int, v.regs[o.rs1 as int] | v.regs[o.rs2 as int]))),
        Operation::AND(o) => (None, v.with_regs(reg_store(v.regs, o.rd as int, v.regs[o.rs1 as int] & v.regs[o.rs2 as int]))),
        Operation::FENCE(o) => (None, v),
        Operation::FENCEI(o) => (None, v),
        Operation::ECALL(o) => (None, v),
        Operation::EBREAK(o) => (None, v),
        Operation::CSRRW(o) => (
            None,
            v.with_csrs(v.csrs.update(o.csr as int, v.regs[o.rs1 as int])).with_regs(
                reg_store(v.regs, o.rd as int, v.csrs[o.csr as int]),
            ),
        ),
        Operation::CSRRS(o) => (
            None,
            v.with_csrs(v.csrs.update(o.csr as int, v.csrs[o.csr as int] | v.regs[o.rs1 as int])).with_regs(
                reg_store(v.regs, o.rd as int, v.csrs[o.csr as int]),
            ),
        ),
        Operation::CSRRC(o) => (
            None,
            v.with_csrs(v.csrs.update(o.csr as int, v.csrs[o.csr as int] & !v.regs[o.rs1 as int])).with_regs(
                reg_store(v.regs, o.rd as int, v.csrs[o.csr as int]),
            ),
        ),
        Operation::CSRRWI(o) => (
            None,
            v.with_csrs(v.csrs.update(o.csr as int, o.zimm)).with_regs(
                reg_store(v.regs, o.rd as int, v.csrs[o.csr as int]),
            ),
        ),
        Operation::CSRRSI(o) => (
            None,
            v.with_csrs(v.csrs.update(o.csr as int, v.csrs[o.csr as int] | o.zimm)).with_regs(
                reg_store(v.regs, o.rd as int, v.csrs[o.csr as int]),
            ),
        ),
        Operation::CSRRCI(o) => (
            None,
            v.with_csrs(v.csrs.update(o.csr as int, v.csrs[o.csr as int] & !o.zimm)).with_regs(
                reg_store(v.regs, o.rd as int, v.csrs[o.csr as int]),
            ),
        ),
        Operation::URET(o) => (None, v),
        Operation::SRET(o) => (None, v),
        Operation::MRET(o) => (None, v),
        Operation::WFI(o) => (None, v),
        Operation::SFENCEVMA(o) => (None, v),
    }
}

/// The trap, if any, `op` raises once executed at program counter `pc`.
pub open spec fn spec_post_check_trap(op: Operation, pc: u32) -> Option<Trap> {
    match op {
        Operation::ECALL(_o) => Some(
            Trap { trap_type: TrapType::Exception, cause: CAUSE_ECALL_FROM_M, value: 0, pc },
        ),
        Operation::EBREAK(_o) => Some(
            Trap { trap_type: TrapType::Exception, cause: CAUSE_EBREAK, value: 0, pc },
        ),
        Operation::URET(_o) => Some(Trap { trap_type: TrapType::TrapReturn, cause: 0, value: 0, pc }),
        Operation::SRET(_o) => Some(Trap { trap_type: TrapType::TrapReturn, cause: 0, value: 0, pc }),
        Operation::MRET(_o) => Some(Trap { trap_type: TrapType::TrapReturn, cause: 0, value: 0, pc }),
        _ => None,
    }
}

impl Operation {
    /// Register and CSR indices of the operation are in range.
    pub open spec fn wf(self) -> bool {
        match self {
            Operation::UnknownOp(_o) => true,
            Operation::LUI(o) => o.wf(),
            Operation::AUIPC(o) => o.wf(),
            Operation::JAL(o) => o.wf(),
            Operation::JALR(o) => o.wf(),
            Operation::BEQ(o) => o.wf(),
            Operation::BNE(o) => o.wf(),
            Operation::BLT(o) => o.wf(),
            Operation::BGE(o) => o.wf(),
            Operation::BLTU(o) => o.wf(),
            Operation::BGEU(o) => o.wf(),
            Operation::LB(o) => o.wf(),
            Operation::LH(o) => o.wf(),
            Operation::LW(o) => o.wf(),
            Operation::LBU(o) => o.wf(),
            Operation::LHU(o) => o.wf(),
            Operation::SB(o) => o.wf(),
            Operation::SH(o) => o.wf(),
            Operation::SW(o) => o.wf(),
            Operation::ADDI(o) => o.wf(),
            Operation::SLTI(o) => o.wf(),
            Operation::SLTIU(o) => o.wf(),
            Operation::XORI(o) => o.wf(),
            Operation::ORI(o) => o.wf(),
            Operation::ANDI(o) => o.wf(),
            Operation::SLLI(o) => o.wf(),
            Operation::SRLI(o) => o.wf(),
            Operation::SRAI(o) => o.wf(),
            Operation::ADD(o) => o.wf(),
            Operation::SUB(o) => o.wf(),
            Operation::SLL(o) => o.wf(),
            Operation::SLT(o) => o.wf(),
            Operation::SLTU(o) => o.wf(),
            Operation::XOR(o) => o.wf(),
            Operation::SRL(o) => o.wf(),
            Operation::SRA(o) => o.wf(),
            Operation::OR(o) => o.wf(),
            Operation::AND(o) => o.wf(),
            Operation::FENCE(_o) => true,
            Operation::FENCEI(_o) => true,
            Operation::ECALL(_o) => true,
            Operation::EBREAK(_o) => true,
            Operation::CSRRW(o) => o.wf(),
            Operation::CSRRS(o) => o.wf(),
            Operation::CSRRC(o) => o.wf(),
            Operation::CSRRWI(o) => o.wf(),
            Operation::CSRRSI(o) => o.wf(),
            Operation::CSRRCI(o) => o.wf(),
            Operation::URET(_o) => true,
            Operation::SRET(_o) => true,
            Operation::MRET(_o) => true,
            Operation::WFI(_o) => true,
            Operation::SFENCEVMA(_o) => true,
        }
    }

    /// Executes the operation, or reports the fault that stops the run.
    pub fn execute(&self, core: &mut Core) -> (r: Result<(), Fault>)
        requires
            old(core).wf(),
            self.wf(),
        ensures
            final(core).wf(),
            ({
                let (f, v) = spec_execute(*self, old(core)@);
                &&& final(core)@ == v
                &&& (match f {
                    Some(e) => r == Err::<(), Fault>(e),
                    None => r == Ok::<(), Fault>(()),
                })
            }),
    {
        match self {
            Operation::UnknownOp(_op) => Err(Fault::UnknownInstruction),
            Operation::LUI(op) => {
                op.execute(core);
                Ok(())
            },
            Operation::AUIPC(op) => {
                op.execute(core);
                Ok(())
            },
            Operation::JAL(op) => {
                op.execute(core);
                Ok(())
            },
            Operation::JALR(op) => {
                op.execute(core);
                Ok(())
            },
            Operation::BEQ(op) => {
                op.execute(core);
                Ok(())
            },
            Operation::BNE(op) => {
                op.execute(core);
                Ok(())
            },
            Operation::BLT(op) => {
                op.execute(core);
                Ok(())
            },
            Operation::BGE(op) => {
                op.execute(core);
                Ok(())
            },
            Operation::BLTU(op) => {
                op.execute(core);
                Ok(())
            },
            Operation::BGEU(op) => {
                op.execute(core);
                Ok(())
            },
            Operation::LB(op) => {
                let addr: u32 = core.int_reg.read(op.rs1).wrapping_add(op.imm);
                if check_range(addr, 1) {
                    op.execute(core);
                    Ok(())
                } else {
                    Err(Fault::OutOfRangeAccess)
                }
            },
            Operation::LH(op) => {
                let addr: u32 = core.int_reg.read(op.rs1).wrapping_add(op.imm);
                if check_range(addr, 2) {
                    op.execute(core);
                    Ok(())
                } else {
                    Err(Fault::OutOfRangeAccess)
                }
            },
            Operation::LW(op) => {
                let addr: u32 = core.int_reg.read(op.rs1).wrapping_add(op.imm);
                if check_range(addr, 4) {
                    op.execute(core);
                    Ok(())
                } else {
                    Err(Fault::OutOfRangeAccess)
                }
            },
            Operation::LBU(op) => {
                let addr: u32 = core.int_reg.read(op.rs1).wrapping_add(op.imm);
                if check_range(addr, 1) {
                    op.execute(core);
                    Ok(())
                } else {
                    Err(Fault::OutOfRangeAccess)
                }
            },
            Operation::LHU(op) => {
                let addr: u32 = core.int_reg.read(op.rs1).wrapping_add(op.imm);
                if check_range(addr, 2) {
                    op.execute(core);
                    Ok(())
                } else {
                    Err(Fault::OutOfRangeAccess)
                }
            },
            Operation::SB(op) => {
                let addr: u32 = core.int_reg.read(op.rs1).wrapping_add(op.imm);
                if check_range(addr, 1) {
                    op.execute(core);
                    Ok(())
                } else {
                    Err(Fault::OutOfRangeAccess)
                }
            },
            Operation::SH(op) => {
                let addr: u32 = core.int_reg.read(op.rs1).wrapping_add(op.imm);
                if check_range(addr, 2) {
                    op.execute(core);
                    Ok(())
                } else {
                    Err(Fault::OutOfRangeAccess)
                }
            },
            Operation::SW(op) => {
                let addr: u32 = core.int_reg.read(op.rs1).wrapping_add(op.imm);
                if check_range(addr, 4) {
                    op.execute(core);
                    Ok(())
                } else {
                    Err(Fault::OutOfRangeAccess)
                }
            },
            Operation::ADDI(op) => {
                op.execute(core);
                Ok(())
            },
            Operation::SLTI(op) => {
                op.execute(core);
                Ok(())
            },
            Operation::SLTIU(op) => {
                op.execute(core);
                Ok(())
            },
            Operation::XORI(op) => {
                op.execute(core);
                Ok(())
            },
            Operation::ORI(op) => {
                op.execute(core);
                Ok(())
            },
            Operation::ANDI(op) => {
                op.execute(core);
                Ok(())
            },
            Operation::SLLI(op) => {
                op.execute(core);
                Ok(())
            },
            Operation::SRLI(op) => {
                op.execute(core);
                Ok(())
            },
            Operation::SRAI(op) => {
                op.execute(core);
                Ok(())
            },
            Operation::ADD(op) => {
                op.execute(core);
                Ok(())
            },
            Operation::SUB(op) => {
                op.execute(core);
                Ok(())
            },
            Operation::SLL(op) => {
                op.execute(core);
                Ok(())
            },
            Operation::SLT(op) => {
                op.execute(core);
                Ok(())
            },
            Operation::SLTU(op) => {
                op.execute(core);
                Ok(())
            },
            Operation::XOR(op) => {
                op.execute(core);
                Ok(())
            },
            Operation::SRL(op) => {
                op.execute(core);
                Ok(())
            },
            Operation::SRA(op) => {
                op.execute(core);
                Ok(())
            },
            Operation::OR(op) => {
                op.execute(core);
                Ok(())
            },
            Operation::AND(op) => {
                op.execute(core);
                Ok(())
            },
            Operation::FENCE(op) => {
                op.execute(core);
                Ok(())
            },
            Operation::FENCEI(op) => {
                op.execute(core);
                Ok(())
            },
            Operation::ECALL(op) => {
                op.execute(core);
                Ok(())
            },
            Operation::EBREAK(op) => {
                op.execute(core);
                Ok(())
            },
            Operation::CSRRW(op) => {
                op.execute(core);
                Ok(())
            },
            Operation::CSRRS(op) => {
                op.execute(core);
                Ok(())
            },
            Operation::CSRRC(op) => {
                op.execute(core);
                Ok(())
            },
            Operation::CSRRWI(op) => {
                op.execute(core);
                Ok(())
            },
            Operation::CSRRSI(op) => {
                op.execute(core);
                Ok(())
            },
            Operation::CSRRCI(op) => {
                op.execute(core);
                Ok(())
            },
            Operation::URET(op) => {
                op.execute(core);
                Ok(())
            },
            Operation::SRET(op) => {
                op.execute(core);
                Ok(())
            },
            Operation::MRET(op) => {
                op.execute(core);
                Ok(())
            },
            Operation::WFI(op) => {
                op.execute(core);
                Ok(())
            },
            Operation::SFENCEVMA(op) => {
                op.execute(core);
                Ok(())
            },
        }
    }

    /// Reports the trap the operation raises once executed; the hart is
    /// left untouched.
    pub fn post_check_trap(&self, core: &mut Core) -> (t: Option<Trap>)
        ensures
            *final(core) == *old(core),
            t == spec_post_check_trap(*self, old(core).pc),
    {
        match self {
            Operation::ECALL(op) => op.post_check_trap(core),
            Operation::EBREAK(op) => op.post_check_trap(core),
            Operation::URET(op) => op.post_check_trap(core),
            Operation::SRET(op) => op.post_check_trap(core),
            Operation::MRET(op) => op.post_check_trap(core),
            _ => None,
        }
    }
}

/// Branch redirection: with the sequential successor staged as `next_pc`,
/// a branch on equality whose operands are equal redirects the next program
/// counter to `pc + imm`, and one whose operands differ leaves the staged
/// `pc + 4` standing.
pub proof fn lemma_branch_redirect(op: BEQ, v: CoreView)
    requires
        v.wf(),
        op.wf(),
        v.next_pc == wrap_add(v.pc, 4),
    ensures
        ({
            let (f, v2) = spec_execute(Operation::BEQ(op), v);
            &&& f is None
            &&& v.regs[op.rs1 as int] == v.regs[op.rs2 as int] ==> v2.next_pc == wrap_add(
                v.pc,
                op.imm,
            )
            &&& v.regs[op.rs1 as int] != v.regs[op.rs2 as int] ==> v2.next_pc == wrap_add(v.pc, 4)
        }),
{
}

/// A mnemonic followed by destination, source and immediate.
pub open spec fn render_rd_rs1_imm(mn: Seq<char>, rd: int, rs1: int, imm: u32) -> Seq<char> {
    mn + spec_reg_name(rd) + ","@ + spec_reg_name(rs1) + ","@ + spec_dec(imm)
}

/// A mnemonic followed by destination and two sources.
pub open spec fn render_rd_rs1_rs2(mn: Seq<char>, rd: int, rs1: int, rs2: int) -> Seq<char> {
    mn + spec_reg_name(rd) + ","@ + spec_reg_name(rs1) + ","@ + spec_reg_name(rs2)
}

/// A memory operation: the transferred register, then the displacement in
/// parentheses around the base register.
pub open spec fn render_mem(mn: Seq<char>, reg: int, imm: u32, base: int) -> Seq<char> {
    mn + spec_reg_name(reg) + ","@ + spec_dec(imm) + "("@ + spec_reg_name(base) + ")"@
}

/// A conditional branch: the zero-comparing short form whenever one operand
/// is register 0, the full two-operand form otherwise.
pub open spec fn render_branch(
    mn: Seq<char>,
    zmn: Seq<char>,
    rs1: int,
    rs2: int,
    imm: u32,
) -> Seq<char> {
    if rs1 == 0 {
        zmn + spec_reg_name(rs2) + ", #"@ + spec_dec(imm)
    } else if rs2 == 0 {
        zmn + spec_reg_name(rs1) + ", #"@ + spec_dec(imm)
    } else {
        mn + spec_reg_name(rs1) + ","@ + spec_reg_name(rs2) + ","@ + spec_dec(imm)
    }
}

/// A CSR access: the short form without a destination when the destination
/// is register 0, the full form otherwise; `src` is the already rendered
/// source operand.
pub open spec fn render_csr(
    short: Seq<char>,
    long_form: Seq<char>,
    csr: int,
    rd: int,
    src: Seq<char>,
) -> Seq<char> {
    if rd == 0 {
        short + spec_csr_name(csr) + ","@ + src
    } else {
        long_form + spec_reg_name(rd) + ","@ + spec_csr_name(csr) + ","@ + src
    }
}

/// The canonical assembler rendering of an operation, with ABI register
/// names; a presentation aid for tracing.
pub open spec fn spec_render(op: Operation) -> Seq<char> {
    match op {
        Operation::UnknownOp(_o) => "unknown"@,
        Operation::LUI(o) => "lui "@ + spec_reg_name(o.rd as int) + ",0x"@ + spec_hex(o.imm),
        Operation::AUIPC(o) => "auipc "@ + spec_reg_name(o.rd as int) + ",0x"@ + spec_hex(o.imm),
        Operation::JAL(o) => {
            if o.rd == 0 {
                "j #"@ + spec_dec(o.imm)
            } else {
                "jal "@ + spec_reg_name(o.rd as int) + ","@ + spec_dec(o.imm)
            }
        },
        Operation::JALR(o) => {
            if o.rd == 0 {
                "jr "@ + spec_reg_name(o.rs1 as int) + ","@ + spec_dec(o.imm)
            } else {
                render_rd_rs1_imm("jalr "@, o.rd as int, o.rs1 as int, o.imm)
            }
        },
        Operation::BEQ(o) => render_branch("beq "@, "beqz "@, o.rs1 as int, o.rs2 as int, o.imm),
        Operation::BNE(o) => render_branch("bne "@, "bnez "@, o.rs1 as int, o.rs2 as int, o.imm),
        Operation::BLT(o) => render_branch("blt "@, "bltz "@, o.rs1 as int, o.rs2 as int, o.imm),
        Operation::BGE(o) => render_branch("bge "@, "bgez "@, o.rs1 as int, o.rs2 as int, o.imm),
        Operation::BLTU(o) => "bltu "@ + spec_reg_name(o.rs1 as int) + ","@ + spec_reg_name(
            o.rs2 as int,
        ) + ","@ + spec_dec(o.imm),
        Operation::BGEU(o) => "bgeu "@ + spec_reg_name(o.rs1 as int) + ","@ + spec_reg_name(
            o.rs2 as int,
        ) + ","@ + spec_dec(o.imm),
        Operation::LB(o) => render_mem("lb "@, o.rd as int, o.imm, o.rs1 as int),
        Operation::LH(o) => render_mem("lh "@, o.rd as int, o.imm, o.rs1 as int),
        Operation::LW(o) => render_mem("lw "@, o.rd as int, o.imm, o.rs1 as int),
        Operation::LBU(o) => render_mem("lbu "@, o.rd as int, o.imm, o.rs1 as int),
        Operation::LHU(o) => render_mem("lhu "@, o.rd as int, o.imm, o.rs1 as int),
        Operation::SB(o) => render_mem("sb "@, o.rs2 as int, o.imm, o.rs1 as int),
        Operation::SH(o) => render_mem("sh "@, o.rs2 as int, o.imm, o.rs1 as int),
        Operation::SW(o) => render_mem("sw "@, o.rs2 as int, o.imm, o.rs1 as int),
        Operation::ADDI(o) => render_rd_rs1_imm("addi "@, o.rd as int, o.rs1 as int, o.imm),
        Operation::SLTI(o) => render_rd_rs1_imm("slti "@, o.rd as int, o.rs1 as int, o.imm),
        Operation::SLTIU(o) => render_rd_rs1_imm("sltiu "@, o.rd as int, o.rs1 as int, o.imm),
        Operation::XORI(o) => render_rd_rs1_imm("xori "@, o.rd as int, o.rs1 as int, o.imm),
        Operation::ORI(o) => render_rd_rs1_imm("ori "@, o.rd as int, o.rs1 as int, o.imm),
        Operation::ANDI(o) => render_rd_rs1_imm("andi "@, o.rd as int, o.rs1 as int, o.imm),
        Operation::SLLI(o) => render_rd_rs1_imm("slli "@, o.rd as int, o.rs1 as int, o.shamt),
        Operation::SRLI(o) => render_rd_rs1_imm("srli "@, o.rd as int, o.rs1 as int, o.shamt),
        Operation::SRAI(o) => render_rd_rs1_imm("srai "@, o.rd as int, o.rs1 as int, o.shamt),
        Operation::ADD(o) => render_rd_rs1_rs2("add "@, o.rd as int, o.rs1 as int, o.rs2 as int),
        Operation::SUB(o) => render_rd_rs1_rs2("sub "@, o.rd as int, o.rs1 as int, o.rs2 as int),
        Operation::SLL(o) => render_rd_rs1_rs2("sll "@, o.rd as int, o.rs1 as int, o.rs2 as int),
        Operation::SLT(o) => render_rd_rs1_rs2("slt "@, o.rd as int, o.rs1 as int, o.rs2 as int),
        Operation::SLTU(o) => render_rd_rs1_rs2("sltu "@, o.rd as int, o.rs1 as int, o.rs2 as int),
        Operation::XOR(o) => render_rd_rs1_rs2("xor "@, o.rd as int, o.rs1 as int, o.rs2 as int),
        Operation::SRL(o) => render_rd_rs1_rs2("srl "@, o.rd as int, o.rs1 as int, o.rs2 as int),
        Operation::SRA(o) => render_rd_rs1_rs2("sra "@, o.rd as int, o.rs1 as int, o.rs2 as int),
        Operation::OR(o) => render_rd_rs1_rs2("or "@, o.rd as int, o.rs1 as int, o.rs2 as int),
        Operation::AND(o) => render_rd_rs1_rs2("and "@, o.rd as int, o.rs1 as int, o.rs2 as int),
        Operation::FENCE(_o) => "fence"@,
        Operation::FENCEI(_o) => "fence.i"@,
        Operation::ECALL(_o) => "ecall"@,
        Operation::EBREAK(_o) => "ebreak"@,
        Operation::CSRRW(o) => render_csr(
            "csrw "@,
            "csrrw "@,
            o.csr as int,
            o.rd as int,
            spec_reg_name(o.rs1 as int),
        ),
        Operation::CSRRS(o) => {
            if o.rs1 == 0 {
                "csrr "@ + spec_reg_name(o.rd as int) + ","@ + spec_csr_name(o.csr as int)
            } else if o.rd == 0 {
                "csrr "@ + spec_csr_name(o.csr as int) + ","@ + spec_reg_name(o.rs1 as int)
            } else {
                "csrrs "@ + spec_reg_name(o.rd as int) + ","@ + spec_csr_name(o.csr as int)
                    + ","@ + spec_reg_name(o.rs1 as int)
            }
        },
        Operation::CSRRC(o) => render_csr(
            "csrc "@,
            "csrrc "@,
            o.csr as int,
            o.rd as int,
            spec_reg_name(o.rs1 as int),
        ),
        Operation::CSRRWI(o) => render_csr(
            "csrwi "@,
            "csrrwi "@,
            o.csr as int,
            o.rd as int,
            spec_dec(o.zimm),
        ),
        Operation::CSRRSI(o) => render_csr(
            "csrsi "@,
            "csrrsi "@,
            o.csr as int,
            o.rd as int,
            spec_dec(o.zimm),
        ),
        Operation::CSRRCI(o) => render_csr(
            "csrci "@,
            "csrrci "@,
            o.csr as int,
            o.rd as int,
            spec_dec(o.zimm),
        ),
        Operation::URET(_o) => "uret"@,
        Operation::SRET(_o) => "sret"@,
        Operation::MRET(_o) => "mret"@,
        Operation::WFI(_o) => "wfi"@,
        Operation::SFENCEVMA(_o) => "sfence.vma"@,
    }
}

impl UnknownOp {
    /// Renders the canonical assembler form of this operation.
    pub fn to_string(&self) -> (r: String)
        ensures
            r@ == spec_render(Operation::UnknownOp(*self)),
    {
        String::from_str("unknown")
    }
}

impl LUI {
    /// Renders the canonical assembler form of this operation.
    pub fn to_string(&self) -> (r: String)
        ensures
            r@ == spec_render(Operation::LUI(*self)),
    {
        let r0: String = get_int_reg_name(self.rd);
        let h1: String = u32_to_hex(self.imm);
        String::from_str("lui ").concat(r0.as_str()).concat(",0x").concat(h1.as_str())
    }
}

impl AUIPC {
    /// Renders the canonical assembler form of this operation.
    pub fn to_string(&self) -> (r: String)
        ensures
            r@ == spec_render(Operation::AUIPC(*self)),
    {
        let r0: String = get_int_reg_name(self.rd);
        let h1: String = u32_to_hex(self.imm);
        String::from_str("auipc ").concat(r0.as_str()).concat(",0x").concat(h1.as_str())
    }
}

impl JAL {
    /// Renders the canonical assembler form of this operation.
    pub fn to_string(&self) -> (r: String)
        ensures
            r@ == spec_render(Operation::JAL(*self)),
    {
        if self.rd == 0 {
            let d0: String = u32_to_dec(self.imm);
            String::from_str("j #").concat(d0.as_str())
        } else {
            let r0: String = get_int_reg_name(self.rd);
            let d1: String = u32_to_dec(self.imm);
            String::from_str("jal ").concat(r0.as_str()).concat(",").concat(d1.as_str())
        }
    }
}

impl JALR {
    /// Renders the canonical assembler form of this operation.
    pub fn to_string(&self) -> (r: String)
        ensures
            r@ == spec_render(Operation::JALR(*self)),
    {
        if self.rd == 0 {
            let r0: String = get_int_reg_name(self.rs1);
            let d1: String = u32_to_dec(self.imm);
            String::from_str("jr ").concat(r0.as_str()).concat(",").concat(d1.as_str())
        } else {
            let r0: String = get_int_reg_name(self.rd);
            let r1: String = get_int_reg_name(self.rs1);
            let d2: String = u32_to_dec(self.imm);
            String::from_str("jalr ").concat(r0.as_str()).concat(",").concat(r1.as_str()).concat(",").concat(d2.as_str())
        }
    }
}

impl BEQ {
    /// Renders the canonical assembler form of this operation.
    pub fn to_string(&self) -> (r: String)
        ensures
            r@ == spec_render(Operation::BEQ(*self)),
    {
        if self.rs1 == 0 {
            let r0: String = get_int_reg_name(self.rs2);
            let d1: String = u32_to_dec(self.imm);
            String::from_str("beqz ").concat(r0.as_str()).concat(", #").concat(d1.as_str())
        } else if self.rs2 == 0 {
            let r0: String = get_int_reg_name(self.rs1);
            let d1: String = u32_to_dec(self.imm);
            String::from_str("beqz ").concat(r0.as_str()).concat(", #").concat(d1.as_str())
        } else {
            let r0: String = get_int_reg_name(self.rs1);
            let r1: String = get_int_reg_name(self.rs2);
            let d2: String = u32_to_dec(self.imm);
            String::from_str("beq ").concat(r0.as_str()).concat(",").concat(r1.as_str()).concat(",").concat(d2.as_str())
        }
    }
}

impl BNE {
    /// Renders the canonical assembler form of this operation.
    pub fn to_string(&self) -> (r: String)
        ensures
            r@ == spec_render(Operation::BNE(*self)),
    {
        if self.rs1 == 0 {
            let r0: String = get_int_reg_name(self.rs2);
            let d1: String = u32_to_dec(self.imm);
            String::from_str("bnez ").concat(r0.as_str()).concat(", #").concat(d1.as_str())
        } else if self.rs2 == 0 {
            let r0: String = get_int_reg_name(self.rs1);
            let d1: String = u32_to_dec(self.imm);
            String::from_str("bnez ").concat(r0.as_str()).concat(", #").concat(d1.as_str())
        } else {
            let r0: String = get_int_reg_name(self.rs1);
            let r1: String = get_int_reg_name(self.rs2);
            let d2: String = u32_to_dec(self.imm);
            String::from_str("bne ").concat(r0.as_str()).concat(",").concat(r1.as_str()).concat(",").concat(d2.as_str())
        }
    }
}

impl BLT {
    /// Renders the canonical assembler form of this operation.
    pub fn to_string(&self) -> (r: String)
        ensures
            r@ == spec_render(Operation::BLT(*self)),
    {
        if self.rs1 == 0 {
            let r0: String = get_int_reg_name(self.rs2);
            let d1: String = u32_to_dec(self.imm);
            String::from_str("bltz ").concat(r0.as_str()).concat(", #").concat(d1.as_str())
        } else if self.rs2 == 0 {
            let r0: String = get_int_reg_name(self.rs1);
            let d1: String = u32_to_dec(self.imm);
            String::from_str("bltz ").concat(r0.as_str()).concat(", #").concat(d1.as_str())
        } else {
            let r0: String = get_int_reg_name(self.rs1);
            let r1: String = get_int_reg_name(self.rs2);
            let d2: String = u32_to_dec(self.imm);
            String::from_str("blt ").concat(r0.as_str()).concat(",").concat(r1.as_str()).concat(",").concat(d2.as_str())
        }
    }
}

impl BGE {
    /// Renders the canonical assembler form of this operation.
    pub fn to_string(&self) -> (r: String)
        ensures
            r@ == spec_render(Operation::BGE(*self)),
    {
        if self.rs1 == 0 {
            let r0: String = get_int_reg_name(self.rs2);
            let d1: String = u32_to_dec(self.imm);
            String::from_str("bgez ").concat(r0.as_str()).concat(", #").concat(d1.as_str())
        } else if self.rs2 == 0 {
            let r0: String = get_int_reg_name(self.rs1);
            let d1: String = u32_to_dec(self.imm);
            String::from_str("bgez ").concat(r0.as_str()).concat(", #").concat(d1.as_str())
        } else {
            let r0: String = get_int_reg_name(self.rs1);
            let r1: String = get_int_reg_name(self.rs2);
            let d2: String = u32_to_dec(self.imm);
            String::from_str("bge ").concat(r0.as_str()).concat(",").concat(r1.as_str()).concat(",").concat(d2.as_str())
        }
    }
}

impl BLTU {
    /// Renders the canonical assembler form of this operation.
    pub fn to_string(&self) -> (r: String)
        ensures
            r@ == spec_render(Operation::BLTU(*self)),
    {
        let r0: String = get_int_reg_name(self.rs1);
        let r1: String = get_int_reg_name(self.rs2);
        let d2: String = u32_to_dec(self.imm);
        String::from_str("bltu ").concat(r0.as_str()).concat(",").concat(r1.as_str()).concat(",").concat(d2.as_str())
    }
}

impl BGEU {
    /// Renders the canonical assembler form of this operation.
    pub fn to_string(&self) -> (r: String)
        ensures
            r@ == spec_render(Operation::BGEU(*self)),
    {
        let r0: String = get_int_reg_name(self.rs1);
        let r1: String = get_int_reg_name(self.rs2);
        let d2: String = u32_to_dec(self.imm);
        String::from_str("bgeu ").concat(r0.as_str()).concat(",").concat(r1.as_str()).concat(",").concat(d2.as_str())
    }
}

impl LB {
    /// Renders the canonical assembler form of this operation.
    pub fn to_string(&self) -> (r: String)
        ensures
            r@ == spec_render(Operation::LB(*self)),
    {
        let r0: String = get_int_reg_name(self.rd);
        let d1: String = u32_to_dec(self.imm);
        let r2: String = get_int_reg_name(self.rs1);
        String::from_str("lb ").concat(r0.as_str()).concat(",").concat(d1.as_str()).concat("(").concat(r2.as_str()).concat(")")
    }
}

impl LH {
    /// Renders the canonical assembler form of this operation.
    pub fn to_string(&self) -> (r: String)
        ensures
            r@ == spec_render(Operation::LH(*self)),
    {
        let r0: String = get_int_reg_name(self.rd);
        let d1: String = u32_to_dec(self.imm);
        let r2: String = get_int_reg_name(self.rs1);
        String::from_str("lh ").concat(r0.as_str()).concat(",").concat(d1.as_str()).concat("(").concat(r2.as_str()).concat(")")
    }
}

impl LW {
    /// Renders the canonical assembler form of this operation.
    pub fn to_string(&self) -> (r: String)
        ensures
            r@ == spec_render(Operation::LW(*self)),
    {
        let r0: String = get_int_reg_name(self.rd);
        let d1: String = u32_to_dec(self.imm);
        let r2: String = get_int_reg_name(self.rs1);
        String::from_str("lw ").concat(r0.as_str()).concat(",").concat(d1.as_str()).concat("(").concat(r2.as_str()).concat(")")
    }
}

impl LBU {
    /// Renders the canonical assembler form of this operation.
    pub fn to_string(&self) -> (r: String)
        ensures
            r@ == spec_render(Operation::LBU(*self)),
    {
        let r0: String = get_int_reg_name(self.rd);
        let d1: String = u32_to_dec(self.imm);
        let r2: String = get_int_reg_name(self.rs1);
        String::from_str("lbu ").concat(r0.as_str()).concat(",").concat(d1.as_str()).concat("(").concat(r2.as_str()).concat(")")
    }
}

impl LHU {
    /// Renders the canonical assembler form of this operation.
    pub fn to_string(&self) -> (r: String)
        ensures
            r@ == spec_render(Operation::LHU(*self)),
    {
        let r0: String = get_int_reg_name(self.rd);
        let d1: String = u32_to_dec(self.imm);
        let r2: String = get_int_reg_name(self.rs1);
        String::from_str("lhu ").concat(r0.as_str()).concat(",").concat(d1.as_str()).concat("(").concat(r2.as_str()).concat(")")
    }
}

impl SB {
    /// Renders the canonical assembler form of this operation.
    pub fn to_string(&self) -> (r: String)
        ensures
            r@ == spec_render(Operation::SB(*self)),
    {
        let r0: String = get_int_reg_name(self.rs2);
        let d1: String = u32_to_dec(self.imm);
        let r2: String = get_int_reg_name(self.rs1);
        String::from_str("sb ").concat(r0.as_str()).concat(",").concat(d1.as_str()).concat("(").concat(r2.as_str()).concat(")")
    }
}

impl SH {
    /// Renders the canonical assembler form of this operation.
    pub fn to_string(&self) -> (r: String)
        ensures
            r@ == spec_render(Operation::SH(*self)),
    {
        let r0: String = get_int_reg_name(self.rs2);
        let d1: String = u32_to_dec(self.imm);
        let r2: String = get_int_reg_name(self.rs1);
        String::from_str("sh ").concat(r0.as_str()).concat(",").concat(d1.as_str()).concat("(").concat(r2.as_str()).concat(")")
    }
}

impl SW {
    /// Renders the canonical assembler form of this operation.
    pub fn to_string(&self) -> (r: String)
        ensures
            r@ == spec_render(Operation::SW(*self)),
    {
        let r0: String = get_int_reg_name(self.rs2);
        let d1: String = u32_to_dec(self.imm);
        let r2: String = get_int_reg_name(self.rs1);
        String::from_str("sw ").concat(r0.as_str()).concat(",").concat(d1.as_str()).concat("(").concat(r2.as_str()).concat(")")
    }
}

impl ADDI {
    /// Renders the canonical assembler form of this operation.
    pub fn to_string(&self) -> (r: String)
        ensures
            r@ == spec_render(Operation::ADDI(*self)),
    {
        let r0: String = get_int_reg_name(self.rd);
        let r1: String = get_int_reg_name(self.rs1);
        let d2: String = u32_to_dec(self.imm);
        String::from_str("addi ").concat(r0.as_str()).concat(",").concat(r1.as_str()).concat(",").concat(d2.as_str())
    }
}

impl SLTI {
    /// Renders the canonical assembler form of this operation.
    pub fn to_string(&self) -> (r: String)
        ensures
            r@ == spec_render(Operation::SLTI(*self)),
    {
        let r0: String = get_int_reg_name(self.rd);
        let r1: String = get_int_reg_name(self.rs1);
        let d2: String = u32_to_dec(self.imm);
        String::from_str("slti ").concat(r0.as_str()).concat(",").concat(r1.as_str()).concat(",").concat(d2.as_str())
    }
}

impl SLTIU {
    /// Renders the canonical assembler form of this operation.
    pub fn to_string(&self) -> (r: String)
        ensures
            r@ == spec_render(Operation::SLTIU(*self)),
    {
        let r0: String = get_int_reg_name(self.rd);
        let r1: String = get_int_reg_name(self.rs1);
        let d2: String = u32_to_dec(self.imm);
        String::from_str("sltiu ").concat(r0.as_str()).concat(",").concat(r1.as_str()).concat(",").concat(d2.as_str())
    }
}

impl XORI {
    /// Renders the canonical assembler form of this operation.
    pub fn to_string(&self) -> (r: String)
        ensures
            r@ == spec_render(Operation::XORI(*self)),
    {
        let r0: String = get_int_reg_name(self.rd);
        let r1: String = get_int_reg_name(self.rs1);
        let d2: String = u32_to_dec(self.imm);
        String::from_str("xori ").concat(r0.as_str()).concat(",").concat(r1.as_str()).concat(",").concat(d2.as_str())
    }
}

impl ORI {
    /// Renders the canonical assembler form of this operation.
    pub fn to_string(&self) -> (r: String)
        ensures
            r@ == spec_render(Operation::ORI(*self)),
    {
        let r0: String = get_int_reg_name(self.rd);
        let r1: String = get_int_reg_name(self.rs1);
        let d2: String = u32_to_dec(self.imm);
        String::from_str("ori ").concat(r0.as_str()).concat(",").concat(r1.as_str()).concat(",").concat(d2.as_str())
    }
}

impl ANDI {
    /// Renders the canonical assembler form of this operation.
    pub fn to_string(&self) -> (r: String)
        ensures
            r@ == spec_render(Operation::ANDI(*self)),
    {
        let r0: String = get_int_reg_name(self.rd);
        let r1: String = get_int_reg_name(self.rs1);
        let d2: String = u32_to_dec(self.imm);
        String::from_str("andi ").concat(r0.as_str()).concat(",").concat(r1.as_str()).concat(",").concat(d2.as_str())
    }
}

impl SLLI {
    /// Renders the canonical assembler form of this operation.
    pub fn to_string(&self) -> (r: String)
        ensures
            r@ == spec_render(Operation::SLLI(*self)),
    {
        let r0: String = get_int_reg_name(self.rd);
        let r1: String = get_int_reg_name(self.rs1);
        let d2: String = u32_to_dec(self.shamt);
        String::from_str("slli ").concat(r0.as_str()).concat(",").concat(r1.as_str()).concat(",").concat(d2.as_str())
    }
}

impl SRLI {
    /// Renders the canonical assembler form of this operation.
    pub fn to_string(&self) -> (r: String)
        ensures
            r@ == spec_render(Operation::SRLI(*self)),
    {
        let r0: String = get_int_reg_name(self.rd);
        let r1: String = get_int_reg_name(self.rs1);
        let d2: String = u32_to_dec(self.shamt);
        String::from_str("srli ").concat(r0.as_str()).concat(",").concat(r1.as_str()).concat(",").concat(d2.as_str())
    }
}

impl SRAI {
    /// Renders the canonical assembler form of this operation.
    pub fn to_string(&self) -> (r: String)
        ensures
            r@ == spec_render(Operation::SRAI(*self)),
    {
        let r0: String = get_int_reg_name(self.rd);
        let r1: String = get_int_reg_name(self.rs1);
        let d2: String = u32_to_dec(self.shamt);
        String::from_str("srai ").concat(r0.as_str()).concat(",").concat(r1.as_str()).concat(",").concat(d2.as_str())
    }
}

impl ADD {
    /// Renders the canonical assembler form of this operation.
    pub fn to_string(&self) -> (r: String)
        ensures
            r@ == spec_render(Operation::ADD(*self)),
    {
        let r0: String = get_int_reg_name(self.rd);
        let r1: String = get_int_reg_name(self.rs1);
        let r2: String = get_int_reg_name(self.rs2);
        String::from_str("add ").concat(r0.as_str()).concat(",").concat(r1.as_str()).concat(",").concat(r2.as_str())
    }
}

impl SUB {
    /// Renders the canonical assembler form of this operation.
    pub fn to_string(&self) -> (r: String)
        ensures
            r@ == spec_render(Operation::SUB(*self)),
    {
        let r0: String = get_int_reg_name(self.rd);
        let r1: String = get_int_reg_name(self.rs1);
        let r2: String = get_int_reg_name(self.rs2);
        String::from_str("sub ").concat(r0.as_str()).concat(",").concat(r1.as_str()).concat(",").concat(r2.as_str())
    }
}

impl SLL {
    /// Renders the canonical assembler form of this operation.
    pub fn to_string(&self) -> (r: String)
        ensures
            r@ == spec_render(Operation::SLL(*self)),
    {
        let r0: String = get_int_reg_name(self.rd);
        let r1: String = get_int_reg_name(self.rs1);
        let r2: String = get_int_reg_name(self.rs2);
        String::from_str("sll ").concat(r0.as_str()).concat(",").concat(r1.as_str()).concat(",").concat(r2.as_str())
    }
}

impl SLT {
    /// Renders the canonical assembler form of this operation.
    pub fn to_string(&self) -> (r: String)
        ensures
            r@ == spec_render(Operation::SLT(*self)),
    {
        let r0: String = get_int_reg_name(self.rd);
        let r1: String = get_int_reg_name(self.rs1);
        let r2: String = get_int_reg_name(self.rs2);
        String::from_str("slt ").concat(r0.as_str()).concat(",").concat(r1.as_str()).concat(",").concat(r2.as_str())
    }
}

impl SLTU {
    /// Renders the canonical assembler form of this operation.
    pub fn to_string(&self) -> (r: String)
        ensures
            r@ == spec_render(Operation::SLTU(*self)),
    {
        let r0: String = get_int_reg_name(self.rd);
        let r1: String = get_int_reg_name(self.rs1);
        let r2: String = get_int_reg_name(self.rs2);
        String::from_str("sltu ").concat(r0.as_str()).concat(",").concat(r1.as_str()).concat(",").concat(r2.as_str())
    }
}

impl XOR {
    /// Renders the canonical assembler form of this operation.
    pub fn to_string(&self) -> (r: String)
        ensures
            r@ == spec_render(Operation::XOR(*self)),
    {
        let r0: String = get_int_reg_name(self.rd);
        let r1: String = get_int_reg_name(self.rs1);
        let r2: String = get_int_reg_name(self.rs2);
        String::from_str("xor ").concat(r0.as_str()).concat(",").concat(r1.as_str()).concat(",").concat(r2.as_str())
    }
}

impl SRL {
    /// Renders the canonical assembler form of this operation.
    pub fn to_string(&self) -> (r: String)
        ensures
            r@ == spec_render(Operation::SRL(*self)),
    {
        let r0: String = get_int_reg_name(self.rd);
        let r1: String = get_int_reg_name(self.rs1);
        let r2: String = get_int_reg_name(self.rs2);
        String::from_str("srl ").concat(r0.as_str()).concat(",").concat(r1.as_str()).concat(",").concat(r2.as_str())
    }
}

impl SRA {
    /// Renders the canonical assembler form of this operation.
    pub fn to_string(&self) -> (r: String)
        ensures
            r@ == spec_render(Operation::SRA(*self)),
    {
        let r0: String = get_int_reg_name(self.rd);
        let r1: String = get_int_reg_name(self.rs1);
        let r2: String = get_int_reg_name(self.rs2);
        String::from_str("sra ").concat(r0.as_str()).concat(",").concat(r1.as_str()).concat(",").concat(r2.as_str())
    }
}

impl OR {
    /// Renders the canonical assembler form of this operation.
    pub fn to_string(&self) -> (r: String)
        ensures
            r@ == spec_render(Operation::OR(*self)),
    {
        let r0: String = get_int_reg_name(self.rd);
        let r1: String = get_int_reg_name(self.rs1);
        let r2: String = get_int_reg_name(self.rs2);
        String::from_str("or ").concat(r0.as_str()).concat(",").concat(r1.as_str()).concat(",").concat(r2.as_str())
    }
}

impl AND {
    /// Renders the canonical assembler form of this operation.
    pub fn to_string(&self) -> (r: String)
        ensures
            r@ == spec_render(Operation::AND(*self)),
    {
        let r0: String = get_int_reg_name(self.rd);
        let r1: String = get_int_reg_name(self.rs1);
        let r2: String = get_int_reg_name(self.rs2);
        String::from_str("and ").concat(r0.as_str()).concat(",").concat(r1.as_str()).concat(",").concat(r2.as_str())
    }
}

impl FENCE {
    /// Renders the canonical assembler form of this operation.
    pub fn to_string(&self) -> (r: String)
        ensures
            r@ == spec_render(Operation::FENCE(*self)),
    {
        String::from_str("fence")
    }
}

impl FENCEI {
    /// Renders the canonical assembler form of this operation.
    pub fn to_string(&self) -> (r: String)
        ensures
            r@ == spec_render(Operation::FENCEI(*self)),
    {
        String::from_str("fence.i")
    }
}

impl ECALL {
    /// Renders the canonical assembler form of this operation.
    pub fn to_string(&self) -> (r: String)
        ensures
            r@ == spec_render(Operation::ECALL(*self)),
    {
        String::from_str("ecall")
    }
}

impl EBREAK {
    /// Renders the canonical assembler form of this operation.
    pub fn to_string(&self) -> (r: String)
        ensures
            r@ == spec_render(Operation::EBREAK(*self)),
    {
        String::from_str("ebreak")
    }
}

impl CSRRW {
    /// Renders the canonical assembler form of this operation.
    pub fn to_string(&self) -> (r: String)
        requires
            self.wf(),
        ensures
            r@ == spec_render(Operation::CSRRW(*self)),
    {
        if self.rd == 0 {
            let c0: String = get_csr_name(self.csr);
            let r1: String = get_int_reg_name(self.rs1);
            String::from_str("csrw ").concat(c0.as_str()).concat(",").concat(r1.as_str())
        } else {
            let r0: String = get_int_reg_name(self.rd);
            let c1: String = get_csr_name(self.csr);
            let r2: String = get_int_reg_name(self.rs1);
            String::from_str("csrrw ").concat(r0.as_str()).concat(",").concat(c1.as_str()).concat(",").concat(r2.as_str())
        }
    }
}

impl CSRRS {
    /// Renders the canonical assembler form of this operation.
    pub fn to_string(&self) -> (r: String)
        requires
            self.wf(),
        ensures
            r@ == spec_render(Operation::CSRRS(*self)),
    {
        if self.rs1 == 0 {
            let r0: String = get_int_reg_name(self.rd);
            let c1: String = get_csr_name(self.csr);
            String::from_str("csrr ").concat(r0.as_str()).concat(",").concat(c1.as_str())
        } else if self.rd == 0 {
            let c0: String = get_csr_name(self.csr);
            let r1: String = get_int_reg_name(self.rs1);
            String::from_str("csrr ").concat(c0.as_str()).concat(",").concat(r1.as_str())
        } else {
            let r0: String = get_int_reg_name(self.rd);
            let c1: String = get_csr_name(self.csr);
            let r2: String = get_int_reg_name(self.rs1);
            String::from_str("csrrs ").concat(r0.as_str()).concat(",").concat(c1.as_str()).concat(",").concat(r2.as_str())
        }
    }
}

impl CSRRC {
    /// Renders the canonical assembler form of this operation.
    pub fn to_string(&self) -> (r: String)
        requires
            self.wf(),
        ensures
            r@ == spec_render(Operation::CSRRC(*self)),
    {
        if self.rd == 0 {
            let c0: String = get_csr_name(self.csr);
            let r1: String = get_int_reg_name(self.rs1);
            String::from_str("csrc ").concat(c0.as_str()).concat(",").concat(r1.as_str())
        } else {
            let r0: String = get_int_reg_name(self.rd);
            let c1: String = get_csr_name(self.csr);
            let r2: String = get_int_reg_name(self.rs1);
            String::from_str("csrrc ").concat(r0.as_str()).concat(",").concat(c1.as_str()).concat(",").concat(r2.as_str())
        }
    }
}

impl CSRRWI {
    /// Renders the canonical assembler form of this operation.
    pub fn to_string(&self) -> (r: String)
        requires
            self.wf(),
        ensures
            r@ == spec_render(Operation::CSRRWI(*self)),
    {
        if self.rd == 0 {
            let c0: String = get_csr_name(self.csr);
            let d1: String = u32_to_dec(self.zimm);
            String::from_str("csrwi ").concat(c0.as_str()).concat(",").concat(d1.as_str())
        } else {
            let r0: String = get_int_reg_name(self.rd);
            let c1: String = get_csr_name(self.csr);
            let d2: String = u32_to_dec(self.zimm);
            String::from_str("csrrwi ").concat(r0.as_str()).concat(",").concat(c1.as_str()).concat(",").concat(d2.as_str())
        }
    }
}

impl CSRRSI {
    /// Renders the canonical assembler form of this operation.
    pub fn to_string(&self) -> (r: String)
        requires
            self.wf(),
        ensures
            r@ == spec_render(Operation::CSRRSI(*self)),
    {
        if self.rd == 0 {
            let c0: String = get_csr_name(self.csr);
            let d1: String = u32_to_dec(self.zimm);
            String::from_str("csrsi ").concat(c0.as_str()).concat(",").concat(d1.as_str())
        } else {
            let r0: String = get_int_reg_name(self.rd);
            let c1: String = get_csr_name(self.csr);
            let d2: String = u32_to_dec(self.zimm);
            String::from_str("csrrsi ").concat(r0.as_str()).concat(",").concat(c1.as_str()).concat(",").concat(d2.as_str())
        }
    }
}

impl CSRRCI {
    /// Renders the canonical assembler form of this operation.
    pub fn to_string(&self) -> (r: String)
        requires
            self.wf(),
        ensures
            r@ == spec_render(Operation::CSRRCI(*self)),
    {
        if self.rd == 0 {
            let c0: String = get_csr_name(self.csr);
            let d1: String = u32_to_dec(self.zimm);
            String::from_str("csrci ").concat(c0.as_str()).concat(",").concat(d1.as_str())
        } else {
            let r0: String = get_int_reg_name(self.rd);
            let c1: String = get_csr_name(self.csr);
            let d2: String = u32_to_dec(self.zimm);
            String::from_str("csrrci ").concat(r0.as_str()).concat(",").concat(c1.as_str()).concat(",").concat(d2.as_str())
        }
    }
}

impl URET {
    /// Renders the canonical assembler form of this operation.
    pub fn to_string(&self) -> (r: String)
        ensures
            r@ == spec_render(Operation::URET(*self)),
    {
        String::from_str("uret")
    }
}

impl SRET {
    /// Renders the canonical assembler form of this operation.
    pub fn to_string(&self) -> (r: String)
        ensures
            r@ == spec_render(Operation::SRET(*self)),
    {
        String::from_str("sret")
    }
}

impl MRET {
    /// Renders the canonical assembler form of this operation.
    pub fn to_string(&self) -> (r: String)
        ensures
            r@ == spec_render(Operation::MRET(*self)),
    {
        String::from_str("mret")
    }
}

impl WFI {
    /// Renders the canonical assembler form of this operation.
    pub fn to_string(&self) -> (r: String)
        ensures
            r@ == spec_render(Operation::WFI(*self)),
    {
        String::from_str("wfi")
    }
}

impl SFENCEVMA {
    /// Renders the canonical assembler form of this operation.
    pub fn to_string(&self) -> (r: String)
        ensures
            r@ == spec_render(Operation::SFENCEVMA(*self)),
    {
        String::from_str("sfence.vma")
    }
}

impl Operation {
    /// Renders the canonical assembler form of the operation.
    pub fn to_string(&self) -> (r: String)
        requires
            self.wf(),
        ensures
            r@ == spec_render(*self),
    {
        match self {
            Operation::UnknownOp(op) => op.to_string(),
            Operation::LUI(op) => op.to_string(),
            Operation::AUIPC(op) => op.to_string(),
            Operation::JAL(op) => op.to_string(),
            Operation::JALR(op) => op.to_string(),
            Operation::BEQ(op) => op.to_string(),
            Operation::BNE(op) => op.to_string(),
            Operation::BLT(op) => op.to_string(),
            Operation::BGE(op) => op.to_string(),
            Operation::BLTU(op) => op.to_string(),
            Operation::BGEU(op) => op.to_string(),
            Operation::LB(op) => op.to_string(),
            Operation::LH(op) => op.to_string(),
            Operation::LW(op) => op.to_string(),
            Operation::LBU(op) => op.to_string(),
            Operation::LHU(op) => op.to_string(),
            Operation::SB(op) => op.to_string(),
            Operation::SH(op) => op.to_string(),
            Operation::SW(op) => op.to_string(),
            Operation::ADDI(op) => op.to_string(),
            Operation::SLTI(op) => op.to_string(),
            Operation::SLTIU(op) => op.to_string(),
            Operation::XORI(op) => op.to_string(),
            Operation::ORI(op) => op.to_string(),
            Operation::ANDI(op) => op.to_string(),
            Operation::SLLI(op) => op.to_string(),
            Operation::SRLI(op) => op.to_string(),
            Operation::SRAI(op) => op.to_string(),
            Operation::ADD(op) => op.to_string(),
            Operation::SUB(op) => op.to_string(),
            Operation::SLL(op) => op.to_string(),
            Operation::SLT(op) => op.to_string(),
            Operation::SLTU(op) => op.to_string(),
            Operation::XOR(op) => op.to_string(),
            Operation::SRL(op) => op.to_string(),
            Operation::SRA(op) => op.to_string(),
            Operation::OR(op) => op.to_string(),
            Operation::AND(op) => op.to_string(),
            Operation::FENCE(op) => op.to_string(),
            Operation::FENCEI(op) => op.to_string(),
            Operation::ECALL(op) => op.to_string(),
            Operation::EBREAK(op) => op.to_string(),
            Operation::CSRRW(op) => op.to_string(),
            Operation::CSRRS(op) => op.to_string(),
            Operation::CSRRC(op) => op.to_string(),
            Operation::CSRRWI(op) => op.to_string(),
            Operation::CSRRSI(op) => op.to_string(),
            Operation::CSRRCI(op) => op.to_string(),
            Operation::URET(op) => op.to_string(),
            Operation::SRET(op) => op.to_string(),
            Operation::MRET(op) => op.to_string(),
            Operation::WFI(op) => op.to_string(),
            Operation::SFENCEVMA(op) => op.to_string(),
        }
    }
}

/// CSR read before write: a register-form CSR replacement whose CSR holds
/// `V` while the source register holds `W` leaves `V` in the destination
/// register and `W` in the CSR.  The destination receives the
/// pre-modification value, never the same instruction's write.  (A
/// destination of register 0 is left out: that register discards writes.)
pub proof fn lemma_csr_read_before_write(op: CSRRW, v: CoreView)
    requires
        v.wf(),
        op.wf(),
        op.rd != 0,
    ensures
        ({
            let (f, v2) = spec_execute(Operation::CSRRW(op), v);
            &&& f is None
            &&& v2.regs[op.rd as int] == v.csrs[op.csr as int]
            &&& v2.csrs[op.csr as int] == v.regs[op.rs1 as int]
        }),
{
}

} // verus!
