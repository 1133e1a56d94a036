//! Address translation between the simulated physical address space and the
//! flat byte memory: a fixed base address is subtracted with 32-bit
//! wraparound, then the little-endian sized access is performed.

use vstd::prelude::*;
use crate::memory::{le16_at, le32_at, Memory, MEMORY_SIZE};

verus! {

/// Base of the simulated physical address space.
pub const MEMORY_BASE: u32 = 0x8000_0000;

/// The byte offset a simulated physical address translates to: the base
/// address is subtracted with 32-bit wraparound.
pub open spec fn spec_translate(addr: u32) -> u32 {
    if addr >= MEMORY_BASE {
        (addr - MEMORY_BASE) as u32
    } else {
        (addr - MEMORY_BASE + 0x1_0000_0000) as u32
    }
}

/// Whether an `n`-byte access at simulated address `addr` falls inside the
/// backing memory.
pub open spec fn bus_in_range(addr: u32, n: int) -> bool {
    spec_translate(addr) + n <= MEMORY_SIZE
}

/// Decides at run time whether an `n`-byte access at simulated address
/// `addr` falls inside the backing memory.
pub fn check_range(addr: u32, n: u32) -> (r: bool)
    ensures
        r == bus_in_range(addr, n as int),
{
    let off: u32 = addr.wrapping_sub(MEMORY_BASE);
    (off as u64) + (n as u64) <= MEMORY_SIZE as u64
}

pub struct Bus {
    pub memory: Memory,
}

impl View for Bus {
    type V = Seq<u8>;

    open spec fn view(&self) -> Seq<u8> {
        self.memory@
    }
}

impl Bus {
    pub open spec fn wf(&self) -> bool {
        self.memory.wf()
    }

    pub fn new(memory: Memory) -> (b: Bus)
        ensures
            b.memory == memory,
    {
        Bus { memory }
    }

    fn translate(&self, addr: u32) -> (r: u32)
        ensures
            r == spec_translate(addr),
    {
        addr.wrapping_sub(MEMORY_BASE)
    }

    pub fn read_u8(&self, addr: u32) -> (r: u8)
        requires
            self.wf(),
            bus_in_range(addr, 1),
        ensures
            r == self@[spec_translate(addr) as int],
    {
        let off: u32 = self.translate(addr);
        self.memory.read_u8(off as u64)
    }

    pub fn read_u16(&self, addr: u32) -> (r: u16)
        requires
            self.wf(),
            bus_in_range(addr, 2),
        ensures
            r == le16_at(self@, spec_translate(addr) as int),
    {
        let off: u32 = self.translate(addr);
        self.memory.read_u16(off as u64)
    }

    pub fn read_u32(&self, addr: u32) -> (r: u32)
        requires
            self.wf(),
            bus_in_range(addr, 4),
        ensures
            r == le32_at(self@, spec_translate(addr) as int),
    {
        let off: u32 = self.translate(addr);
        self.memory.read_u32(off as u64)
    }

    pub fn write_u8(&mut self, addr: u32, value: u8)
        requires
            old(self).wf(),
            bus_in_range(addr, 1),
        ensures
            final(self).wf(),
            final(self)@ == old(self)@.update(spec_translate(addr) as int, value),
    {
        let off: u32 = self.translate(addr);
        self.memory.write_u8(off as u64, value);
    }

    pub fn write_u16(&mut self, addr: u32, value: u16)
        requires
            old(self).wf(),
            bus_in_range(addr, 2),
        ensures
            final(self).wf(),
            final(self)@ == old(self)@.update(spec_translate(addr) as int, (value & 0xff) as u8).update(
                spec_translate(addr) + 1,
                ((value >> 8) & 0xff) as u8,
            ),
    {
        let off: u32 = self.translate(addr);
        self.memory.write_u16(off as u64, value);
    }

    pub fn write_u32(&mut self, addr: u32, value: u32)
        requires
            old(self).wf(),
            bus_in_range(addr, 4),
        ensures
            final(self).wf(),
            final(self)@ == old(self)@.update(spec_translate(addr) as int, (value & 0xff) as u8).update(
                spec_translate(addr) + 1,
                ((value >> 8) & 0xff) as u8,
            ).update(spec_translate(addr) + 2, ((value >> 16) & 0xff) as u8).update(
                spec_translate(addr) + 3,
                ((value >> 24) & 0xff) as u8,
            ),
    {
        let off: u32 = self.translate(addr);
        self.memory.write_u32(off as u64, value);
    }
}

} // verus!
