//! A read-only program image. Writes are dropped: cartridge ROM ignores them.

use vstd::prelude::*;

use crate::mmu::MemoryRead;
use crate::mmu::bytes;

verus! {

/// A game or BIOS image. The unverified shell reads the file; the core only
/// ever sees the bytes.
pub struct GameRom {
    data: Vec<u8>,
}

impl GameRom {
    pub closed spec fn view(&self) -> Seq<u8> {
        self.data@
    }

    pub fn new(data: Vec<u8>) -> (r: GameRom)
        ensures
            r@ == data@,
    {
        GameRom { data }
    }

    pub fn empty() -> (r: GameRom)
        ensures
            r@ == Seq::<u8>::empty(),
    {
        GameRom { data: Vec::new() }
    }

    pub fn len(&self) -> (r: usize)
        ensures
            r == self@.len(),
    {
        self.data.len()
    }

    /// Reads beyond the image answer 0, matching a pulled-down cartridge bus.
    pub fn load8(&self, addr: u32) -> (r: MemoryRead<u8>)
        ensures
            addr < self@.len() ==> r == MemoryRead::Value(self@[addr as int]),
            addr >= self@.len() ==> r == MemoryRead::Value(0u8),
    {
        if (addr as usize) < self.data.len() {
            bytes::load8(self.data.as_slice(), addr)
        } else {
            MemoryRead::Value(0)
        }
    }

    pub fn set8(&mut self, _addr: u32, _val: u8)
        ensures
            final(self)@ == old(self)@,
    {
    }

    pub fn load16(&self, addr: u32) -> (r: MemoryRead<u16>)
        ensures
            addr + 2 <= self@.len() ==> r == MemoryRead::Value(bytes::sp_le16(self@, addr as int)),
            addr >= self@.len() ==> r == MemoryRead::Value(0u16),
            addr < self@.len() && addr + 2 > self@.len() ==> r == MemoryRead::<u16>::Open,
    {
        if (addr as usize) < self.data.len() {
            bytes::load16(self.data.as_slice(), addr)
        } else {
            MemoryRead::Value(0)
        }
    }

    pub fn set16(&mut self, _addr: u32, _val: u16)
        ensures
            final(self)@ == old(self)@,
    {
    }

    pub fn load32(&self, addr: u32) -> (r: MemoryRead<u32>)
        ensures
            addr + 4 <= self@.len() ==> r == MemoryRead::Value(bytes::sp_le32(self@, addr as int)),
            addr >= self@.len() ==> r == MemoryRead::Value(0u32),
            addr < self@.len() && addr + 4 > self@.len() ==> r == MemoryRead::<u32>::Open,
    {
        if (addr as usize) < self.data.len() {
            bytes::load32(self.data.as_slice(), addr)
        } else {
            MemoryRead::Value(0)
        }
    }

    pub fn set32(&mut self, _addr: u32, _val: u32)
        ensures
            final(self)@ == old(self)@,
    {
    }
}

} // verus!
