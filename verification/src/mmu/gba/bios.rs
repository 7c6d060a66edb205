//! The BIOS block: readable only while the CPU executes inside it.

use vstd::prelude::*;

use crate::mmu::MemoryRead;
use crate::mmu::bytes;
use crate::rom::GameRom;

verus! {

pub const BIOS_SIZE: u32 = 0x4000;

/// The boot ROM with its access guard. Reads succeed only when the CPU's
/// prefetch address lies inside the BIOS window; other reads answer 0.
pub struct Bios {
    pub rom: GameRom,
}

impl Bios {
    pub fn new(rom: GameRom) -> (r: Bios)
        ensures
            r.rom == rom,
    {
        Bios { rom }
    }

    pub fn load8(&self, addr: u32, prefetch: u32) -> (r: MemoryRead<u8>)
        ensures
            addr >= BIOS_SIZE ==> r == MemoryRead::<u8>::Open,
            addr < BIOS_SIZE && prefetch >= BIOS_SIZE ==> r == MemoryRead::Value(0u8),
            addr < BIOS_SIZE && prefetch < BIOS_SIZE && addr < self.rom@.len() ==> r
                == MemoryRead::Value(self.rom@[addr as int]),
            addr < BIOS_SIZE && prefetch < BIOS_SIZE && addr >= self.rom@.len() ==> r
                == MemoryRead::Value(0u8),
    {
        if addr < BIOS_SIZE {
            if prefetch < BIOS_SIZE {
                self.rom.load8(addr)
            } else {
                MemoryRead::Value(0)
            }
        } else {
            MemoryRead::Open
        }
    }

    pub fn load16(&self, addr: u32, prefetch: u32) -> (r: MemoryRead<u16>)
        ensures
            addr >= BIOS_SIZE ==> r == MemoryRead::<u16>::Open,
            addr < BIOS_SIZE && prefetch >= BIOS_SIZE ==> r == MemoryRead::Value(0u16),
            addr < BIOS_SIZE && prefetch < BIOS_SIZE && addr + 2 <= self.rom@.len() ==> r
                == MemoryRead::Value(bytes::sp_le16(self.rom@, addr as int)),
            addr < BIOS_SIZE && prefetch < BIOS_SIZE && addr >= self.rom@.len() ==> r
                == MemoryRead::Value(0u16),
            addr < BIOS_SIZE && prefetch < BIOS_SIZE && addr < self.rom@.len() && addr + 2
                > self.rom@.len() ==> r == MemoryRead::<u16>::Open,
    {
        if addr < BIOS_SIZE {
            if prefetch < BIOS_SIZE {
                self.rom.load16(addr)
            } else {
                MemoryRead::Value(0)
            }
        } else {
            MemoryRead::Open
        }
    }

    pub fn load32(&self, addr: u32, prefetch: u32) -> (r: MemoryRead<u32>)
        ensures
            addr >= BIOS_SIZE ==> r == MemoryRead::<u32>::Open,
            addr < BIOS_SIZE && prefetch >= BIOS_SIZE ==> r == MemoryRead::Value(0u32),
            addr < BIOS_SIZE && prefetch < BIOS_SIZE && addr + 4 <= self.rom@.len() ==> r
                == MemoryRead::Value(bytes::sp_le32(self.rom@, addr as int)),
            addr < BIOS_SIZE && prefetch < BIOS_SIZE && addr >= self.rom@.len() ==> r
                == MemoryRead::Value(0u32),
            addr < BIOS_SIZE && prefetch < BIOS_SIZE && addr < self.rom@.len() && addr + 4
                > self.rom@.len() ==> r == MemoryRead::<u32>::Open,
    {
        if addr < BIOS_SIZE {
            if prefetch < BIOS_SIZE {
                self.rom.load32(addr)
            } else {
                MemoryRead::Value(0)
            }
        } else {
            MemoryRead::Open
        }
    }
}

} // verus!
