//! The state of one hart: register file, CSR bank, program counter, the
//! staged next program counter, the bus with its memory, and the address
//! polled for termination.

use vstd::prelude::*;
use crate::bus::{bus_in_range, spec_translate, Bus};
use crate::csr::{Csr, NUM_CSR};
use crate::memory::{le32_at, MEMORY_SIZE};
use crate::reg::{IntReg, NUM_INT_REG};

verus! {

/// The mathematical state of a hart: plain sequences and integers.
pub ghost struct CoreView {
    pub regs: Seq<u32>,
    pub csrs: Seq<u32>,
    pub pc: u32,
    pub next_pc: u32,
    pub mem: Seq<u8>,
    pub host_io_addr: u32,
}

impl CoreView {
    /// The sizes every reachable state keeps, and the hardwired zero in
    /// register 0.
    pub open spec fn wf(self) -> bool {
        &&& self.regs.len() == NUM_INT_REG
        &&& self.regs[0] == 0
        &&& self.csrs.len() == NUM_CSR
        &&& self.mem.len() == MEMORY_SIZE
    }

    pub open spec fn with_regs(self, regs: Seq<u32>) -> CoreView {
        CoreView { regs, ..self }
    }

    pub open spec fn with_csrs(self, csrs: Seq<u32>) -> CoreView {
        CoreView { csrs, ..self }
    }

    pub open spec fn with_next_pc(self, next_pc: u32) -> CoreView {
        CoreView { next_pc, ..self }
    }

    pub open spec fn with_mem(self, mem: Seq<u8>) -> CoreView {
        CoreView { mem, ..self }
    }
}

pub struct Core {
    pub csr: Csr,
    pub int_reg: IntReg,
    pub pc: u32,
    pub next_pc: u32,
    pub bus: Bus,
    pub host_io_addr: u32,
}

impl View for Core {
    type V = CoreView;

    open spec fn view(&self) -> CoreView {
        CoreView {
            regs: self.int_reg@,
            csrs: self.csr@,
            pc: self.pc,
            next_pc: self.next_pc,
            mem: self.bus@,
            host_io_addr: self.host_io_addr,
        }
    }
}

impl Core {
    pub open spec fn wf(&self) -> bool {
        &&& self.int_reg.wf()
        &&& self.csr.wf()
        &&& self.bus.wf()
    }

    /// A fresh hart on the given bus: all registers and CSRs zero, both
    /// program counters zero, no termination address configured.
    pub fn new(bus: Bus) -> (c: Core)
        ensures
            c@.pc == 0,
            c@.next_pc == 0,
            c@.host_io_addr == 0,
            c@.mem == bus@,
            c.bus == bus,
            c@.regs.len() == NUM_INT_REG,
            forall|i: int| 0 <= i < NUM_INT_REG ==> c@.regs[i] == 0,
            c@.csrs.len() == NUM_CSR,
            forall|i: int| 0 <= i < NUM_CSR ==> c@.csrs[i] == 0,
            bus.wf() ==> c.wf(),
    {
        Core { csr: Csr::new(), int_reg: IntReg::new(), pc: 0, next_pc: 0, bus, host_io_addr: 0 }
    }

    /// Reads the instruction word the program counter points at.
    pub fn fetch(&self) -> (r: u32)
        requires
            self.wf(),
            bus_in_range(self.pc, 4),
        ensures
            r == le32_at(self@.mem, spec_translate(self.pc) as int),
    {
        self.bus.read_u32(self.pc)
    }

    /// Polls the termination address.
    pub fn read_host_io(&self) -> (r: u32)
        requires
            self.wf(),
            bus_in_range(self.host_io_addr, 4),
        ensures
            r == le32_at(self@.mem, spec_translate(self.host_io_addr) as int),
    {
        self.bus.read_u32(self.host_io_addr)
    }
}

} // verus!
