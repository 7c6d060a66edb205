//! Little-endian multi-width access over plain byte arrays.

use vstd::prelude::*;

use crate::mmu::MemoryRead;

verus! {

/// The 16-bit little-endian value stored at byte offset `i`.
pub open spec fn sp_le16(s: Seq<u8>, i: int) -> u16
    recommends
        0 <= i,
        i + 2 <= s.len(),
{
    (s[i] as u16) | ((s[i + 1] as u16) << 8)
}

/// The 32-bit little-endian value stored at byte offset `i`.
pub open spec fn sp_le32(s: Seq<u8>, i: int) -> u32
    recommends
        0 <= i,
        i + 4 <= s.len(),
{
    (s[i] as u32) | ((s[i + 1] as u32) << 8) | ((s[i + 2] as u32) << 16) | ((s[i + 3] as u32)
        << 24)
}

/// `s` with the 16-bit value `v` stored little-endian at byte offset `i`.
pub open spec fn sp_store16(s: Seq<u8>, i: int, v: u16) -> Seq<u8>
    recommends
        0 <= i,
        i + 2 <= s.len(),
{
    s.update(i, (v & 0xff) as u8).update(i + 1, ((v >> 8) & 0xff) as u8)
}

/// `s` with the 32-bit value `v` stored little-endian at byte offset `i`.
pub open spec fn sp_store32(s: Seq<u8>, i: int, v: u32) -> Seq<u8>
    recommends
        0 <= i,
        i + 4 <= s.len(),
{
    s.update(i, (v & 0xff) as u8).update(i + 1, ((v >> 8) & 0xff) as u8).update(
        i + 2,
        ((v >> 16) & 0xff) as u8,
    ).update(i + 3, ((v >> 24) & 0xff) as u8)
}

/// Reads an aligned-or-not 16-bit little-endian value; no bounds check.
pub fn read16(arr: &[u8], idx: usize) -> (r: u16)
    requires
        idx + 2 <= arr@.len(),
    ensures
        r == sp_le16(arr@, idx as int),
{
    (arr[idx] as u16) | ((arr[idx + 1] as u16) << 8)
}

/// Reads a 32-bit little-endian value; no bounds check.
pub fn read32(arr: &[u8], idx: usize) -> (r: u32)
    requires
        idx + 4 <= arr@.len(),
    ensures
        r == sp_le32(arr@, idx as int),
{
    (arr[idx] as u32) | ((arr[idx + 1] as u32) << 8) | ((arr[idx + 2] as u32) << 16) | ((arr[idx
        + 3] as u32) << 24)
}

/// Writes a 16-bit little-endian value; no bounds check.
pub fn write16(arr: &mut Vec<u8>, idx: usize, val: u16)
    requires
        idx + 2 <= old(arr)@.len(),
    ensures
        final(arr)@ == sp_store16(old(arr)@, idx as int, val),
        final(arr)@.len() == old(arr)@.len(),
{
    broadcast use crate::bit_util::lemma_and_mask_le_u16;

    let n: usize = arr.len();
    arr[idx] = (val & 0xff) as u8;
    arr[idx + 1] = ((val >> 8) & 0xff) as u8;
}

/// Writes a 32-bit little-endian value; no bounds check.
pub fn write32(arr: &mut Vec<u8>, idx: usize, val: u32)
    requires
        idx + 4 <= old(arr)@.len(),
    ensures
        final(arr)@ == sp_store32(old(arr)@, idx as int, val),
        final(arr)@.len() == old(arr)@.len(),
{
    broadcast use crate::bit_util::lemma_and_mask_le;

    let n: usize = arr.len();
    arr[idx] = (val & 0xff) as u8;
    arr[idx + 1] = ((val >> 8) & 0xff) as u8;
    arr[idx + 2] = ((val >> 16) & 0xff) as u8;
    arr[idx + 3] = ((val >> 24) & 0xff) as u8;
}

/// Bounds-checked byte read: out-of-range addresses read as open bus.
pub fn load8(arr: &[u8], addr: u32) -> (r: MemoryRead<u8>)
    ensures
        addr < arr@.len() ==> r == MemoryRead::Value(arr@[addr as int]),
        addr >= arr@.len() ==> r == MemoryRead::<u8>::Open,
{
    let idx = addr as usize;
    if idx < arr.len() {
        MemoryRead::Value(arr[idx])
    } else {
        MemoryRead::Open
    }
}

/// Bounds-checked byte write: out-of-range addresses are dropped.
pub fn set8(arr: &mut Vec<u8>, addr: u32, val: u8)
    ensures
        addr < old(arr)@.len() ==> final(arr)@ == old(arr)@.update(addr as int, val),
        addr >= old(arr)@.len() ==> final(arr)@ == old(arr)@,
{
    let idx = addr as usize;
    if idx < arr.len() {
        arr[idx] = val;
    }
}

/// Bounds-checked 16-bit little-endian read.
pub fn load16(arr: &[u8], addr: u32) -> (r: MemoryRead<u16>)
    ensures
        addr + 2 <= arr@.len() ==> r == MemoryRead::Value(sp_le16(arr@, addr as int)),
        addr + 2 > arr@.len() ==> r == MemoryRead::<u16>::Open,
{
    let idx = addr as usize;
    if arr.len() >= 2 && idx < arr.len() - 1 {
        MemoryRead::Value(read16(arr, idx))
    } else {
        MemoryRead::Open
    }
}

/// Bounds-checked 16-bit little-endian write; out-of-range writes are dropped.
pub fn set16(arr: &mut Vec<u8>, addr: u32, val: u16)
    ensures
        addr + 2 <= old(arr)@.len() ==> final(arr)@ == sp_store16(old(arr)@, addr as int, val),
        addr + 2 > old(arr)@.len() ==> final(arr)@ == old(arr)@,
        final(arr)@.len() == old(arr)@.len(),
{
    let idx = addr as usize;
    if arr.len() >= 2 && idx < arr.len() - 1 {
        write16(arr, idx, val);
    }
}

/// Bounds-checked 32-bit little-endian read.
pub fn load32(arr: &[u8], addr: u32) -> (r: MemoryRead<u32>)
    ensures
        addr + 4 <= arr@.len() ==> r == MemoryRead::Value(sp_le32(arr@, addr as int)),
        addr + 4 > arr@.len() ==> r == MemoryRead::<u32>::Open,
{
    let idx = addr as usize;
    if arr.len() >= 4 && idx < arr.len() - 3 {
        MemoryRead::Value(read32(arr, idx))
    } else {
        MemoryRead::Open
    }
}

/// Bounds-checked 32-bit little-endian write; out-of-range writes are dropped.
pub fn set32(arr: &mut Vec<u8>, addr: u32, val: u32)
    ensures
        addr + 4 <= old(arr)@.len() ==> final(arr)@ == sp_store32(old(arr)@, addr as int, val),
        addr + 4 > old(arr)@.len() ==> final(arr)@ == old(arr)@,
        final(arr)@.len() == old(arr)@.len(),
{
    let idx = addr as usize;
    if arr.len() >= 4 && idx < arr.len() - 3 {
        write32(arr, idx, val);
    }
}

/// Storing a halfword and reading it back yields the value.
pub proof fn lemma_le16_store16(s: Seq<u8>, i: int, v: u16)
    requires
        0 <= i,
        i + 2 <= s.len(),
    ensures
        sp_le16(sp_store16(s, i, v), i) == v,
{
    assert((((v & 0xff) as u8) as u16) | ((((((v >> 8) & 0xff) as u16) as u8) as u16) << 8) == v)
        by (bit_vector);
    assert(sp_store16(s, i, v)[i] == (v & 0xff) as u8);
    assert(sp_store16(s, i, v)[i + 1] == ((v >> 8) & 0xff) as u8);
}

/// A halfword store leaves every halfword it does not overlap unchanged.
pub proof fn lemma_le16_store16_other(s: Seq<u8>, i: int, v: u16, j: int)
    requires
        0 <= i,
        i + 2 <= s.len(),
        0 <= j,
        j + 2 <= s.len(),
        i + 2 <= j || j + 2 <= i,
    ensures
        sp_le16(sp_store16(s, i, v), j) == sp_le16(s, j),
{
}

} // verus!
