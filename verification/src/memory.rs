//! Flat byte memory with little-endian sized accessors.  The simulated
//! machine sees `MEMORY_SIZE` bytes; every byte starts out as `0xff`.

use vstd::prelude::*;

verus! {

/// Number of bytes the backing array holds.
pub const MEMORY_SIZE: usize = 65536;

/// The 16-bit value stored little-endian at byte offset `a` of `mem`.
pub open spec fn le16_at(mem: Seq<u8>, a: int) -> u16 {
    (mem[a] as u16) | ((mem[a + 1] as u16) << 8)
}

/// The 32-bit value stored little-endian at byte offset `a` of `mem`.
pub open spec fn le32_at(mem: Seq<u8>, a: int) -> u32 {
    (mem[a] as u32) | ((mem[a + 1] as u32) << 8) | ((mem[a + 2] as u32) << 16) | ((mem[a
        + 3] as u32) << 24)
}

pub struct Memory {
    pub body: Vec<u8>,
}

impl View for Memory {
    type V = Seq<u8>;

    open spec fn view(&self) -> Seq<u8> {
        self.body@
    }
}

impl Memory {
    /// The backing array has its configured size.
    pub open spec fn wf(&self) -> bool {
        self@.len() == MEMORY_SIZE
    }

    /// A fresh memory: every byte holds `0xff`.
    pub fn new() -> (m: Memory)
        ensures
            m.wf(),
            forall|i: int| 0 <= i < MEMORY_SIZE ==> m@[i] == 0xffu8,
    {
        let mut body: Vec<u8> = Vec::new();
        let mut i: usize = 0;
        while i < MEMORY_SIZE
            invariant
                i <= MEMORY_SIZE,
                body@.len() == i,
                forall|k: int| 0 <= k < i ==> body@[k] == 0xffu8,
            decreases MEMORY_SIZE - i,
        {
            body.push(0xff);
            i = i + 1;
        }
        Memory { body }
    }

    /// Copies `data` verbatim to the start of memory; bytes past the end of
    /// `data` (or past the end of memory) are left as they were.
    pub fn load_image(&mut self, data: &Vec<u8>)
        requires
            old(self).wf(),
        ensures
            final(self).wf(),
            forall|i: int|
                0 <= i < MEMORY_SIZE ==> final(self)@[i] == (if i < data@.len() {
                    data@[i]
                } else {
                    old(self)@[i]
                }),
    {
        let mut i: usize = 0;
        while i < data.len() && i < MEMORY_SIZE
            invariant
                self.wf(),
                i <= MEMORY_SIZE,
                i <= data@.len(),
                forall|k: int| 0 <= k < i ==> self@[k] == data@[k],
                forall|k: int| i <= k < MEMORY_SIZE ==> self@[k] == old(self)@[k],
            decreases MEMORY_SIZE - i,
        {
            self.body[i] = data[i];
            i = i + 1;
        }
    }

    pub fn read_u8(&self, addr: u64) -> (r: u8)
        requires
            self.wf(),
            addr + 1 <= MEMORY_SIZE,
        ensures
            r == self@[addr as int],
    {
        self.body[addr as usize]
    }

    pub fn read_u16(&self, addr: u64) -> (r: u16)
        requires
            self.wf(),
            addr + 2 <= MEMORY_SIZE,
        ensures
            r == le16_at(self@, addr as int),
    {
        let a: usize = addr as usize;
        let b0: u16 = self.body[a] as u16;
        let b1: u16 = self.body[a + 1] as u16;
        b0 | (b1 << 8)
    }

    pub fn read_u32(&self, addr: u64) -> (r: u32)
        requires
            self.wf(),
            addr + 4 <= MEMORY_SIZE,
        ensures
            r == le32_at(self@, addr as int),
    {
        let a: usize = addr as usize;
        let b0: u32 = self.body[a] as u32;
        let b1: u32 = self.body[a + 1] as u32;
        let b2: u32 = self.body[a + 2] as u32;
        let b3: u32 = self.body[a + 3] as u32;
        b0 | (b1 << 8) | (b2 << 16) | (b3 << 24)
    }

    pub fn write_u8(&mut self, addr: u64, value: u8)
        requires
            old(self).wf(),
            addr + 1 <= MEMORY_SIZE,
        ensures
            final(self).wf(),
            final(self)@ == old(self)@.update(addr as int, value),
    {
        self.body[addr as usize] = value;
    }

    pub fn write_u16(&mut self, addr: u64, value: u16)
        requires
            old(self).wf(),
            addr + 2 <= MEMORY_SIZE,
        ensures
            final(self).wf(),
            final(self)@ == old(self)@.update(addr as int, (value & 0xff) as u8).update(
                addr + 1,
                ((value >> 8) & 0xff) as u8,
            ),
    {
        let a: usize = addr as usize;
        self.body[a] = (value & 0xff) as u8;
        self.body[a + 1] = ((value >> 8) & 0xff) as u8;
    }

    pub fn write_u32(&mut self, addr: u64, value: u32)
        requires
            old(self).wf(),
            addr + 4 <= MEMORY_SIZE,
        ensures
            final(self).wf(),
            final(self)@ == old(self)@.update(addr as int, (value & 0xff) as u8).update(
                addr + 1,
                ((value >> 8) & 0xff) as u8,
            ).update(addr + 2, ((value >> 16) & 0xff) as u8).update(
                addr + 3,
                ((value >> 24) & 0xff) as u8,
            ),
    {
        let a: usize = addr as usize;
        self.body[a] = (value & 0xff) as u8;
        self.body[a + 1] = ((value >> 8) & 0xff) as u8;
        self.body[a + 2] = ((value >> 16) & 0xff) as u8;
        self.body[a + 3] = ((value >> 24) & 0xff) as u8;
    }
}

} // verus!
