//! A bounded byte block with little-endian multi-width access.

use vstd::prelude::*;

use crate::mmu::MemoryRead;
use crate::mmu::bytes;

verus! {

/// A basic memory block with no internal mapping.
pub struct Ram {
    mem: Vec<u8>,
}

impl Ram {
    pub closed spec fn view(&self) -> Seq<u8> {
        self.mem@
    }

    pub fn new(size: usize) -> (r: Ram)
        ensures
            r@ == Seq::<u8>::new(size as nat, |i: int| 0u8),
            r@.len() == size,
    {
        let v: Vec<u8> = vec![0u8; size];
        proof {
            assert(v@ =~= Seq::<u8>::new(size as nat, |i: int| 0u8));
        }
        Ram { mem: v }
    }

    pub fn new_with_data(size: usize, data: &[u8]) -> (r: Ram)
        requires
            data@.len() <= size,
        ensures
            r@.len() == size,
            forall|i: int| 0 <= i < data@.len() ==> r@[i] == data@[i],
            forall|i: int| data@.len() <= i < size ==> r@[i] == 0u8,
    {
        let mut v: Vec<u8> = Vec::new();
        let mut i: usize = 0;
        while i < data.len()
            invariant
                i <= data@.len() <= size,
                v@.len() == i,
                forall|j: int| 0 <= j < i ==> v@[j] == data@[j],
            decreases data@.len() - i,
        {
            v.push(data[i]);
            i = i + 1;
        }
        while i < size
            invariant
                data@.len() <= size,
                data@.len() <= i <= size,
                v@.len() == i,
                forall|j: int| 0 <= j < data@.len() ==> v@[j] == data@[j],
                forall|j: int| data@.len() <= j < i ==> v@[j] == 0u8,
            decreases size - i,
        {
            v.push(0u8);
            i = i + 1;
        }
        Ram { mem: v }
    }

    pub fn len(&self) -> (r: usize)
        ensures
            r == self@.len(),
    {
        self.mem.len()
    }


    /// A copy of the block's bytes, for save states.
    pub fn contents(&self) -> (r: Vec<u8>)
        ensures
            r@ == self@,
    {
        let mut v: Vec<u8> = Vec::new();
        let mut i: usize = 0;
        while i < self.mem.len()
            invariant
                i <= self.mem@.len(),
                v@.len() == i,
                forall|j: int| 0 <= j < i ==> v@[j] == self.mem@[j],
            decreases self.mem@.len() - i,
        {
            v.push(self.mem[i]);
            i = i + 1;
        }
        proof {
            assert(v@ =~= self@);
        }
        v
    }

    /// Replaces the block's bytes from a save state of the same size.
    pub fn restore(&mut self, data: Vec<u8>)
        requires
            data@.len() == old(self)@.len(),
        ensures
            final(self)@ == data@,
    {
        self.mem = data;
    }

    pub fn load8(&self, addr: u32) -> (r: MemoryRead<u8>)
        ensures
            addr < self@.len() ==> r == MemoryRead::Value(self@[addr as int]),
            addr >= self@.len() ==> r == MemoryRead::<u8>::Open,
    {
        bytes::load8(self.mem.as_slice(), addr)
    }

    pub fn set8(&mut self, addr: u32, val: u8)
        ensures
            addr < old(self)@.len() ==> final(self)@ == old(self)@.update(addr as int, val),
            addr >= old(self)@.len() ==> final(self)@ == old(self)@,
            final(self)@.len() == old(self)@.len(),
    {
        bytes::set8(&mut self.mem, addr, val)
    }

    pub fn load16(&self, addr: u32) -> (r: MemoryRead<u16>)
        ensures
            addr + 2 <= self@.len() ==> r == MemoryRead::Value(bytes::sp_le16(self@, addr as int)),
            addr + 2 > self@.len() ==> r == MemoryRead::<u16>::Open,
    {
        bytes::load16(self.mem.as_slice(), addr)
    }

    pub fn set16(&mut self, addr: u32, val: u16)
        ensures
            addr + 2 <= old(self)@.len() ==> final(self)@ == bytes::sp_store16(
                old(self)@,
                addr as int,
                val,
            ),
            addr + 2 > old(self)@.len() ==> final(self)@ == old(self)@,
            final(self)@.len() == old(self)@.len(),
    {
        bytes::set16(&mut self.mem, addr, val)
    }

    pub fn load32(&self, addr: u32) -> (r: MemoryRead<u32>)
        ensures
            addr + 4 <= self@.len() ==> r == MemoryRead::Value(bytes::sp_le32(self@, addr as int)),
            addr + 4 > self@.len() ==> r == MemoryRead::<u32>::Open,
    {
        bytes::load32(self.mem.as_slice(), addr)
    }

    pub fn set32(&mut self, addr: u32, val: u32)
        ensures
            addr + 4 <= old(self)@.len() ==> final(self)@ == bytes::sp_store32(
                old(self)@,
                addr as int,
                val,
            ),
            addr + 4 > old(self)@.len() ==> final(self)@ == old(self)@,
            final(self)@.len() == old(self)@.len(),
    {
        bytes::set32(&mut self.mem, addr, val)
    }
}

/// A memory block whose reads must always be answered: forcing an open-bus
/// read is a caller error, so the bounds are part of the contract.
pub struct RamUnit {
    pub ram: Ram,
}

impl RamUnit {
    pub fn load8(&self, addr: u32) -> (r: u8)
        requires
            addr < self.ram@.len(),
        ensures
            r == self.ram@[addr as int],
    {
        self.ram.load8(addr).get()
    }

    pub fn set8(&mut self, addr: u32, val: u8)
        requires
            addr < old(self).ram@.len(),
        ensures
            final(self).ram@ == old(self).ram@.update(addr as int, val),
    {
        self.ram.set8(addr, val);
    }

    pub fn load16(&self, addr: u32) -> (r: u16)
        requires
            addr + 2 <= self.ram@.len(),
        ensures
            r == bytes::sp_le16(self.ram@, addr as int),
    {
        self.ram.load16(addr).get()
    }

    pub fn set16(&mut self, addr: u32, val: u16)
        requires
            addr + 2 <= old(self).ram@.len(),
        ensures
            final(self).ram@ == bytes::sp_store16(old(self).ram@, addr as int, val),
    {
        self.ram.set16(addr, val);
    }

    pub fn load32(&self, addr: u32) -> (r: u32)
        requires
            addr + 4 <= self.ram@.len(),
        ensures
            r == bytes::sp_le32(self.ram@, addr as int),
    {
        self.ram.load32(addr).get()
    }

    pub fn set32(&mut self, addr: u32, val: u32)
        requires
            addr + 4 <= old(self).ram@.len(),
        ensures
            final(self).ram@ == bytes::sp_store32(old(self).ram@, addr as int, val),
    {
        self.ram.set32(addr, val);
    }
}

} // verus!
