//! Memory units: byte blocks, the region map, and the devices behind it.

use vstd::prelude::*;

pub mod bytes;
pub mod gba;
pub mod ram;
pub mod raw;

verus! {

/// Result of a memory access: a concrete value, or an open-bus read that no
/// device answered.
pub enum MemoryRead<T> {
    Value(T),
    Open,
}

impl<T> MemoryRead<T> {
    /// Forces a concrete value out of a read known to have been answered.
    pub fn get(self) -> (r: T)
        requires
            self is Value,
        ensures
            r == self->0,
    {
        match self {
            MemoryRead::Value(x) => x,
            MemoryRead::Open => unreached(),
        }
    }
}

/// A flat 64 KiB memory with no mapping, little-endian multi-byte access.
pub struct Mmu {
    mem: Vec<u8>,
}

impl Mmu {
    pub closed spec fn wf(&self) -> bool {
        self.mem@.len() == 0x10000
    }

    pub closed spec fn view(&self) -> Seq<u8> {
        self.mem@
    }

    pub fn new() -> (r: Mmu)
        ensures
            r.wf(),
            r@ == Seq::<u8>::new(0x10000, |i: int| 0u8),
    {
        let v: Vec<u8> = vec![0u8; 0x10000];
        proof {
            assert(v@ =~= Seq::<u8>::new(0x10000, |i: int| 0u8));
        }
        Mmu { mem: v }
    }

    pub fn load8(&self, addr: u32) -> (r: u8)
        requires
            self.wf(),
            addr < 0x10000,
        ensures
            r == self@[addr as int],
    {
        self.mem[addr as usize]
    }

    pub fn set8(&mut self, addr: u32, val: u8)
        requires
            old(self).wf(),
            addr < 0x10000,
        ensures
            final(self).wf(),
            final(self)@ == old(self)@.update(addr as int, val),
    {
        self.mem[addr as usize] = val;
    }

    pub fn load32(&self, addr: u32) -> (r: u32)
        requires
            self.wf(),
            addr + 4 <= 0x10000,
        ensures
            r == bytes::sp_le32(self@, addr as int),
    {
        bytes::read32(self.mem.as_slice(), addr as usize)
    }

    pub fn set32(&mut self, addr: u32, val: u32)
        requires
            old(self).wf(),
            addr + 4 <= 0x10000,
        ensures
            final(self).wf(),
            final(self)@ == bytes::sp_store32(old(self)@, addr as int, val),
    {
        bytes::write32(&mut self.mem, addr as usize, val);
    }
}

} // verus!
