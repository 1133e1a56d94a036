//! The integer register file: 32 unsigned 32-bit registers, with register 0
//! hardwired to zero.  A write to index 0 is accepted and discarded.

use vstd::prelude::*;

verus! {

/// Number of integer registers.
pub const NUM_INT_REG: usize = 32;

/// The register file after one write: a write to index 0 is discarded,
/// every other write replaces the addressed register.
pub open spec fn reg_store(regs: Seq<u32>, index: int, value: u32) -> Seq<u32> {
    if index == 0 {
        regs
    } else {
        regs.update(index, value)
    }
}

/// The register file after a whole sequence of writes, applied in order.
pub open spec fn reg_store_seq(regs: Seq<u32>, writes: Seq<(usize, u32)>) -> Seq<u32>
    decreases writes.len(),
{
    if writes.len() == 0 {
        regs
    } else {
        reg_store_seq(
            reg_store(regs, writes[0].0 as int, writes[0].1),
            writes.subrange(1, writes.len() as int),
        )
    }
}

/// Register 0 is invariant: no sequence of writes to the register file,
/// whatever indices and values it carries, changes the fact that register 0
/// reads as zero.
pub proof fn lemma_register_zero_invariant(regs: Seq<u32>, writes: Seq<(usize, u32)>)
    requires
        regs.len() == NUM_INT_REG,
        regs[0] == 0,
        forall|k: int| 0 <= k < writes.len() ==> (#[trigger] writes[k]).0 < NUM_INT_REG,
    ensures
        reg_store_seq(regs, writes).len() == NUM_INT_REG,
        reg_store_seq(regs, writes)[0] == 0,
    decreases writes.len(),
{
    if writes.len() > 0 {
        let next = reg_store(regs, writes[0].0 as int, writes[0].1);
        let rest = writes.subrange(1, writes.len() as int);
        assert(forall|k: int| 0 <= k < rest.len() ==> (#[trigger] rest[k]).0 < NUM_INT_REG);
        lemma_register_zero_invariant(next, rest);
    }
}

pub struct IntReg {
    values: Vec<u32>,
}

impl View for IntReg {
    type V = Seq<u32>;

    closed spec fn view(&self) -> Seq<u32> {
        self.values@
    }
}

impl IntReg {
    /// All 32 registers exist and register 0 holds zero.
    pub open spec fn wf(&self) -> bool {
        &&& self@.len() == NUM_INT_REG
        &&& self@[0] == 0
    }

    /// A fresh register file: every register holds zero.
    pub fn new() -> (r: IntReg)
        ensures
            r.wf(),
            forall|i: int| 0 <= i < NUM_INT_REG ==> r@[i] == 0,
    {
        let mut values: Vec<u32> = Vec::new();
        let mut i: usize = 0;
        while i < NUM_INT_REG
            invariant
                i <= NUM_INT_REG,
                values@.len() == i,
                forall|k: int| 0 <= k < i ==> values@[k] == 0,
            decreases NUM_INT_REG - i,
        {
            values.push(0);
            i = i + 1;
        }
        IntReg { values }
    }

    pub fn read(&self, index: usize) -> (r: u32)
        requires
            self.wf(),
            index < NUM_INT_REG,
        ensures
            r == self@[index as int],
    {
        self.values[index]
    }

    /// Stores `value` into the addressed register; a write to register 0
    /// has no observable effect.
    pub fn write(&mut self, index: usize, value: u32)
        requires
            old(self).wf(),
            index < NUM_INT_REG,
        ensures
            final(self).wf(),
            final(self)@ == reg_store(old(self)@, index as int, value),
    {
        if index != 0 {
            self.values[index] = value;
        }
    }
}

} // verus!
