//! The control/status register bank: 4096 raw 32-bit cells addressed by a
//! 12-bit index.  Four registers carry structured bit-field meaning for the
//! trap machinery (`mstatus`, `mtvec`, `mepc`, `mcause`, `mtval`); every
//! other index is plain storage.

use vstd::prelude::*;

verus! {

/// Number of control/status registers.
pub const NUM_CSR: usize = 0x1000;

pub const CSR_INDEX_MSTATUS: usize = 0x300;

pub const CSR_INDEX_MTVEC: usize = 0x305;

pub const CSR_INDEX_MEPC: usize = 0x341;

pub const CSR_INDEX_MCAUSE: usize = 0x342;

pub const CSR_INDEX_MTVAL: usize = 0x343;

/// `mstatus.mie`: the machine-interrupt-enable bit, bit 3.
pub open spec fn mstatus_mie(x: u32) -> u32 {
    (x >> 3) & 1
}

/// `mstatus.mpie`: the previous-interrupt-enable bit, bit 7.
pub open spec fn mstatus_mpie(x: u32) -> u32 {
    (x >> 7) & 1
}

/// `mstatus.mpp`: the previous-privilege field, bits 12:11.
pub open spec fn mstatus_mpp(x: u32) -> u32 {
    (x >> 11) & 3
}

/// `mstatus` with bit value `b` stored into its `mie` position.
pub open spec fn mstatus_with_mie(x: u32, b: u32) -> u32 {
    (x & !0x8u32) | (b << 3)
}

/// `mstatus` with bit value `b` stored into its `mpie` position.
pub open spec fn mstatus_with_mpie(x: u32, b: u32) -> u32 {
    (x & !0x80u32) | (b << 7)
}

/// `mstatus` with field value `p` stored into its `mpp` position.
pub open spec fn mstatus_with_mpp(x: u32, p: u32) -> u32 {
    (x & !0x1800u32) | (p << 11)
}

/// `mtvec.base`: the trap-vector base address, bits 31:2, with the mode
/// bits cleared.
pub open spec fn mtvec_base(x: u32) -> u32 {
    x & 0xffff_fffcu32
}

/// `mtvec.mode`: the vectoring mode, bits 1:0.
pub open spec fn mtvec_mode(x: u32) -> u32 {
    x & 3
}

pub struct Csr {
    values: Vec<u32>,
}

impl View for Csr {
    type V = Seq<u32>;

    closed spec fn view(&self) -> Seq<u32> {
        self.values@
    }
}

impl Csr {
    /// All 4096 registers exist.
    pub open spec fn wf(&self) -> bool {
        self@.len() == NUM_CSR
    }

    /// A fresh bank: every register holds zero.
    pub fn new() -> (r: Csr)
        ensures
            r.wf(),
            forall|i: int| 0 <= i < NUM_CSR ==> r@[i] == 0,
    {
        let mut values: Vec<u32> = Vec::new();
        let mut i: usize = 0;
        while i < NUM_CSR
            invariant
                i <= NUM_CSR,
                values@.len() == i,
                forall|k: int| 0 <= k < i ==> values@[k] == 0,
            decreases NUM_CSR - i,
        {
            values.push(0);
            i = i + 1;
        }
        Csr { values }
    }

    pub fn read(&self, index: usize) -> (r: u32)
        requires
            self.wf(),
            index < NUM_CSR,
        ensures
            r == self@[index as int],
    {
        self.values[index]
    }

    pub fn write(&mut self, index: usize, value: u32)
        requires
            old(self).wf(),
            index < NUM_CSR,
        ensures
            final(self).wf(),
            final(self)@ == old(self)@.update(index as int, value),
    {
        self.values[index] = value;
    }

    pub fn read_mstatus(&self) -> (r: u32)
        requires
            self.wf(),
        ensures
            r == self@[CSR_INDEX_MSTATUS as int],
    {
        self.read(CSR_INDEX_MSTATUS)
    }

    pub fn write_mstatus(&mut self, value: u32)
        requires
            old(self).wf(),
        ensures
            final(self).wf(),
            final(self)@ == old(self)@.update(CSR_INDEX_MSTATUS as int, value),
    {
        self.write(CSR_INDEX_MSTATUS, value);
    }

    pub fn read_mtvec(&self) -> (r: u32)
        requires
            self.wf(),
        ensures
            r == self@[CSR_INDEX_MTVEC as int],
    {
        self.read(CSR_INDEX_MTVEC)
    }

    pub fn write_mtvec(&mut self, value: u32)
        requires
            old(self).wf(),
        ensures
            final(self).wf(),
            final(self)@ == old(self)@.update(CSR_INDEX_MTVEC as int, value),
    {
        self.write(CSR_INDEX_MTVEC, value);
    }

    pub fn read_mepc(&self) -> (r: u32)
        requires
            self.wf(),
        ensures
            r == self@[CSR_INDEX_MEPC as int],
    {
        self.read(CSR_INDEX_MEPC)
    }

    pub fn write_mepc(&mut self, value: u32)
        requires
            old(self).wf(),
        ensures
            final(self).wf(),
            final(self)@ == old(self)@.update(CSR_INDEX_MEPC as int, value),
    {
        self.write(CSR_INDEX_MEPC, value);
    }

    pub fn read_mcause(&self) -> (r: u32)
        requires
            self.wf(),
        ensures
            r == self@[CSR_INDEX_MCAUSE as int],
    {
        self.read(CSR_INDEX_MCAUSE)
    }

    pub fn write_mcause(&mut self, value: u32)
        requires
            old(self).wf(),
        ensures
            final(self).wf(),
            final(self)@ == old(self)@.update(CSR_INDEX_MCAUSE as int, value),
    {
        self.write(CSR_INDEX_MCAUSE, value);
    }

    pub fn read_mtval(&self) -> (r: u32)
        requires
            self.wf(),
        ensures
            r == self@[CSR_INDEX_MTVAL as int],
    {
        self.read(CSR_INDEX_MTVAL)
    }

    pub fn write_mtval(&mut self, value: u32)
        requires
            old(self).wf(),
        ensures
            final(self).wf(),
            final(self)@ == old(self)@.update(CSR_INDEX_MTVAL as int, value),
    {
        self.write(CSR_INDEX_MTVAL, value);
    }
}

} // verus!
