//! The console's memory map: address decoding, mirroring, and the devices.

use vstd::prelude::*;

use crate::mmu::ram::Ram;
use crate::rom::GameRom;

pub mod bios;
pub mod save;
pub mod wait;

verus! {

/// A named region of the 32-bit address space.
#[derive(Clone, Copy, PartialEq, Eq, Structural, Debug)]
pub enum MemoryRange {
    Bios,
    BoardWram,
    ChipWram,
    IoRegister,
    Palette,
    VideoRam,
    ObjectAttr,
    GamePakRom,
    GamePakEe,
    GamePakSram,
    Unused,
}

/// The region selected by bits 24..28 of an address.
pub open spec fn sp_match_addr(addr: u32) -> MemoryRange {
    let nibble = (addr >> 24) & 0xf;
    if nibble == 0x0 {
        MemoryRange::Bios
    } else if nibble == 0x1 {
        MemoryRange::Unused
    } else if nibble == 0x2 {
        MemoryRange::BoardWram
    } else if nibble == 0x3 {
        MemoryRange::ChipWram
    } else if nibble == 0x4 {
        MemoryRange::IoRegister
    } else if nibble == 0x5 {
        MemoryRange::Palette
    } else if nibble == 0x6 {
        MemoryRange::VideoRam
    } else if nibble == 0x7 {
        MemoryRange::ObjectAttr
    } else if nibble == 0xD {
        MemoryRange::GamePakEe
    } else if nibble == 0xE || nibble == 0xF {
        MemoryRange::GamePakSram
    } else {
        MemoryRange::GamePakRom
    }
}

/// The offset within a region that an address refers to, after mirroring.
pub open spec fn sp_convert_addr(r: MemoryRange, addr: u32) -> u32 {
    match r {
        MemoryRange::BoardWram => addr & 0x3ffff,
        MemoryRange::ChipWram => addr & 0x7fff,
        MemoryRange::IoRegister => if addr & 0xffff == 0x800 {
            0x800
        } else {
            addr & 0xffffff
        },
        MemoryRange::Palette => addr & 0x3ff,
        MemoryRange::VideoRam => {
            let chunk = addr & 0x1ffff;
            if chunk < 0x18000 {
                chunk
            } else {
                (chunk - 0x8000) as u32
            }
        },
        MemoryRange::ObjectAttr => addr & 0x3ff,
        MemoryRange::GamePakRom => addr & 0x1ffffff,
        MemoryRange::GamePakEe => addr,
        MemoryRange::GamePakSram => addr & 0xffff,
        _ => addr,
    }
}

/// The mirror stride of a region: addresses whose offsets agree modulo the
/// stride reach the same cell. Regions without mirrors report 0.
pub open spec fn sp_mirror_stride(r: MemoryRange) -> u32 {
    match r {
        MemoryRange::BoardWram => 0x40000,
        MemoryRange::ChipWram => 0x8000,
        MemoryRange::Palette => 0x400,
        MemoryRange::VideoRam => 0x20000,
        MemoryRange::ObjectAttr => 0x400,
        MemoryRange::GamePakRom => 0x2000000,
        MemoryRange::GamePakSram => 0x10000,
        _ => 0,
    }
}

/// The base address of a mirrored region's first copy.
pub open spec fn sp_region_base(r: MemoryRange) -> u32 {
    match r {
        MemoryRange::BoardWram => 0x02000000,
        MemoryRange::ChipWram => 0x03000000,
        MemoryRange::Palette => 0x05000000,
        MemoryRange::VideoRam => 0x06000000,
        MemoryRange::ObjectAttr => 0x07000000,
        MemoryRange::GamePakRom => 0x08000000,
        MemoryRange::GamePakSram => 0x0E000000,
        _ => 0,
    }
}

/// Mirroring: two addresses of the same mirrored region whose offsets agree
/// modulo the region's stride decode to the same cell.
pub proof fn lemma_mirroring(r: MemoryRange, a: u32, b: u32)
    requires
        sp_mirror_stride(r) != 0,
        sp_match_addr(a) == r,
        sp_match_addr(b) == r,
        a % sp_mirror_stride(r) == b % sp_mirror_stride(r),
    ensures
        sp_convert_addr(r, a) == sp_convert_addr(r, b),
{
    match r {
        MemoryRange::BoardWram => {
            assert(a % 0x40000 == b % 0x40000 ==> a & 0x3ffff == b & 0x3ffff) by (bit_vector);
        },
        MemoryRange::ChipWram => {
            assert(a % 0x8000 == b % 0x8000 ==> a & 0x7fff == b & 0x7fff) by (bit_vector);
        },
        MemoryRange::Palette => {
            assert(a % 0x400 == b % 0x400 ==> a & 0x3ff == b & 0x3ff) by (bit_vector);
        },
        MemoryRange::VideoRam => {
            assert(a % 0x20000 == b % 0x20000 ==> a & 0x1ffff == b & 0x1ffff) by (bit_vector);
        },
        MemoryRange::ObjectAttr => {
            assert(a % 0x400 == b % 0x400 ==> a & 0x3ff == b & 0x3ff) by (bit_vector);
        },
        MemoryRange::GamePakRom => {
            assert(a % 0x2000000 == b % 0x2000000 ==> a & 0x1ffffff == b & 0x1ffffff)
                by (bit_vector);
        },
        MemoryRange::GamePakSram => {
            assert(a % 0x10000 == b % 0x10000 ==> a & 0xffff == b & 0xffff) by (bit_vector);
        },
        _ => {},
    }
}

/// Mirroring, stated over mirror copies: for a mirrored region, an offset
/// `o` below the stride, and any `k`-th copy whose address still decodes to
/// the region, the `k`-th copy reaches the cell of the first copy.
pub proof fn lemma_mirror_copies(r: MemoryRange, o: u32, k: u32)
    requires
        sp_mirror_stride(r) != 0,
        o < sp_mirror_stride(r),
        sp_region_base(r) + o + k * sp_mirror_stride(r) <= u32::MAX,
        sp_match_addr((sp_region_base(r) + o + k * sp_mirror_stride(r)) as u32) == r,
        sp_match_addr((sp_region_base(r) + o) as u32) == r,
    ensures
        sp_convert_addr(r, (sp_region_base(r) + o + k * sp_mirror_stride(r)) as u32)
            == sp_convert_addr(r, (sp_region_base(r) + o) as u32),
{
    let s = sp_mirror_stride(r) as int;
    let base = sp_region_base(r) as int;
    let a = (base + o + k * s) as u32;
    let b = (base + o) as u32;
    assert((base + o + k * s) % s == (base + o) % s) by {
        vstd::arithmetic::div_mod::lemma_mod_multiples_vanish(k as int, base + o, s);
    };
    assert(a % sp_mirror_stride(r) == b % sp_mirror_stride(r));
    lemma_mirroring(r, a, b);
}

impl MemoryRange {
    /// The half-open address window of the first copy of the region.
    pub fn bounds(&self) -> (r: (u32, u32))
        ensures
            r.0 == sp_region_base(*self) || *self is Bios || *self is IoRegister || *self
                is GamePakEe || *self is Unused,
    {
        match *self {
            MemoryRange::Bios => (0x00000000, 0x00004000),
            MemoryRange::BoardWram => (0x02000000, 0x02040000),
            MemoryRange::ChipWram => (0x03000000, 0x03008000),
            MemoryRange::IoRegister => (0x04000000, 0x04008004),
            MemoryRange::Palette => (0x05000000, 0x05000400),
            MemoryRange::VideoRam => (0x06000000, 0x06018000),
            MemoryRange::ObjectAttr => (0x07000000, 0x07000400),
            MemoryRange::GamePakRom => (0x08000000, 0x0E000000),
            MemoryRange::GamePakEe => (0x0D000000, 0x0E000000),
            MemoryRange::GamePakSram => (0x0E000000, 0x0E010000),
            MemoryRange::Unused => (0x00000000, 0xFFFFFFFF),
        }
    }

    /// Applies the region's mirroring to turn an address into an offset.
    pub fn convert_addr(&self, addr: u32) -> (r: u32)
        ensures
            r == sp_convert_addr(*self, addr),
    {
        match *self {
            MemoryRange::BoardWram => addr & 0x3ffff,
            MemoryRange::ChipWram => addr & 0x7fff,
            MemoryRange::IoRegister => {
                if addr & 0xffff == 0x800 {
                    0x800
                } else {
                    addr & 0xffffff
                }
            },
            MemoryRange::Palette => addr & 0x3ff,
            MemoryRange::VideoRam => {
                let chunk = addr & 0x1ffff;
                if chunk < 0x18000 {
                    chunk
                } else {
                    chunk - 0x8000
                }
            },
            MemoryRange::ObjectAttr => addr & 0x3ff,
            MemoryRange::GamePakRom => addr & 0x1ffffff,
            MemoryRange::GamePakEe => addr,
            MemoryRange::GamePakSram => addr & 0xffff,
            _ => addr,
        }
    }

    /// Decodes the region an address belongs to from its high nibble.
    pub fn match_addr(addr: u32) -> (r: MemoryRange)
        ensures
            r == sp_match_addr(addr),
    {
        let nibble = (addr >> 24) & 0xf;
        match nibble {
            0x0 => MemoryRange::Bios,
            0x1 => MemoryRange::Unused,
            0x2 => MemoryRange::BoardWram,
            0x3 => MemoryRange::ChipWram,
            0x4 => MemoryRange::IoRegister,
            0x5 => MemoryRange::Palette,
            0x6 => MemoryRange::VideoRam,
            0x7 => MemoryRange::ObjectAttr,
            0xD => MemoryRange::GamePakEe,
            0xE | 0xF => MemoryRange::GamePakSram,
            _ => MemoryRange::GamePakRom,
        }
    }
}

/// The memory side of the console: every addressable block except the IO
/// register file, which lives beside it and is reached by the bus dispatch.
pub struct Gba {
    pub bios: bios::Bios,
    pub bram: Ram,
    pub cram: Ram,
    pub pram: Ram,
    pub vram: Ram,
    pub oam: Ram,
    pub rom: GameRom,
    pub gram: Ram,
    pub ee: save::eeprom::Eeprom,
}

impl Gba {
    /// Block sizes are fixed by the hardware and never change.
    pub open spec fn wf(&self) -> bool {
        &&& self.bram@.len() == 0x40000
        &&& self.cram@.len() == 0x8000
        &&& self.pram@.len() == 0x400
        &&& self.vram@.len() == 0x20000
        &&& self.oam@.len() == 0x400
        &&& self.gram@.len() == 0x10000
        &&& self.ee.wf()
    }

    pub fn new(rom: GameRom, bios: GameRom) -> (r: Gba)
        ensures
            r.wf(),
            r.rom == rom,
            r.bios.rom == bios,
            r.ee@ == save::eeprom::EeView::initial(),
            r.bram@ == Seq::<u8>::new(0x40000, |i: int| 0u8),
            r.cram@ == Seq::<u8>::new(0x8000, |i: int| 0u8),
            r.pram@ == Seq::<u8>::new(0x400, |i: int| 0u8),
            r.vram@ == Seq::<u8>::new(0x20000, |i: int| 0u8),
            r.oam@ == Seq::<u8>::new(0x400, |i: int| 0u8),
            r.gram@ == Seq::<u8>::new(0x10000, |i: int| 0u8),
    {
        Gba {
            bios: bios::Bios::new(bios),
            bram: Ram::new(256 * 1024),
            cram: Ram::new(32 * 1024),
            pram: Ram::new(1024),
            vram: Ram::new(128 * 1024),
            oam: Ram::new(1024),
            rom,
            gram: Ram::new(64 * 1024),
            ee: save::eeprom::Eeprom::new(),
        }
    }
}

} // verus!
