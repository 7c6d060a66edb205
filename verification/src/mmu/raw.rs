//! An unmapped memory block whose accesses must be in bounds.

use vstd::prelude::*;

use crate::mmu::bytes;

verus! {

/// A basic memory block; out-of-range accesses are a caller error.
pub struct Raw {
    mem: Vec<u8>,
}

impl Raw {
    pub closed spec fn view(&self) -> Seq<u8> {
        self.mem@
    }

    pub fn new(size: usize) -> (r: Raw)
        ensures
            r@ == Seq::<u8>::new(size as nat, |i: int| 0u8),
            r@.len() == size,
    {
        let v: Vec<u8> = vec![0u8; size];
        proof {
            assert(v@ =~= Seq::<u8>::new(size as nat, |i: int| 0u8));
        }
        Raw { mem: v }
    }

    pub fn new_with_data(size: usize, data: &[u8]) -> (r: Raw)
        requires
            data@.len() <= size,
        ensures
            r@.len() == size,
            forall|i: int| 0 <= i < data@.len() ==> r@[i] == data@[i],
            forall|i: int| data@.len() <= i < size ==> r@[i] == 0u8,
    {
        let mut v: Vec<u8> = Vec::new();
        let mut i: usize = 0;
        while i < data.len()
            invariant
                i <= data@.len() <= size,
                v@.len() == i,
                forall|j: int| 0 <= j < i ==> v@[j] == data@[j],
            decreases data@.len() - i,
        {
            v.push(data[i]);
            i = i + 1;
        }
        while i < size
            invariant
                data@.len() <= size,
                data@.len() <= i <= size,
                v@.len() == i,
                forall|j: int| 0 <= j < data@.len() ==> v@[j] == data@[j],
                forall|j: int| data@.len() <= j < i ==> v@[j] == 0u8,
            decreases size - i,
        {
            v.push(0u8);
            i = i + 1;
        }
        Raw { mem: v }
    }

    pub fn load8(&self, addr: u32) -> (r: u8)
        requires
            addr < self@.len(),
        ensures
            r == self@[addr as int],
    {
        self.mem[addr as usize]
    }

    pub fn set8(&mut self, addr: u32, val: u8)
        requires
            addr < old(self)@.len(),
        ensures
            final(self)@ == old(self)@.update(addr as int, val),
    {
        let idx = addr as usize;
        self.mem[idx] = val;
    }

    pub fn load32(&self, addr: u32) -> (r: u32)
        requires
            addr + 4 <= self@.len(),
        ensures
            r == bytes::sp_le32(self@, addr as int),
    {
        bytes::read32(self.mem.as_slice(), addr as usize)
    }

    pub fn set32(&mut self, addr: u32, val: u32)
        requires
            addr + 4 <= old(self)@.len(),
        ensures
            final(self)@ == bytes::sp_store32(old(self)@, addr as int, val),
    {
        bytes::write32(&mut self.mem, addr as usize, val);
    }
}

} // verus!
