//! The owning root of the console: the bus, the DMA engine's transfers,
//! the per-clock scheduler, and the pixel pipeline's timing.

use vstd::prelude::*;

use crate::io::{IO_REG_SIZE, IoReg};
use crate::io::dma::{Dma, DmaCh, Trigger, sp_dma_want_trigger, sp_refreshed_ch};
use crate::io::ppu::Ppu;
use crate::io::ppu::render::{BgRef, RsView, sp_bgref, sp_colour16_rgb, sp_colour_pack};
use crate::io::ppu::render::combine::sp_combine_line;
use crate::io::spu::Spu;
use crate::io::timer::{sp_timers_cycle_from, sp_timers_updated};
use crate::mmu::MemoryRead;
use crate::mmu::bytes::{sp_le16, sp_le32, sp_store16, sp_store32};
use crate::mmu::gba::Gba as GbaMmu;
use crate::mmu::gba::save::eeprom::{EeView, sp_ee_read, sp_ee_write};
use crate::mmu::gba::{MemoryRange, sp_convert_addr, sp_match_addr};
use crate::rom::GameRom;

verus! {

broadcast use crate::bit_util::lemma_and_mask_le;

/// Run options chosen at startup.
#[derive(Debug)]
pub struct Options {
    pub fps_limit: bool,
    pub breaks: Vec<u32>,
    pub step_frames: bool,
    pub direct_boot: bool,
}

impl Options {
    pub fn new() -> (r: Options)
        ensures
            r.fps_limit == true,
            r.breaks@.len() == 0,
            r.step_frames == false,
            r.direct_boot == false,
    {
        Options { fps_limit: true, breaks: Vec::new(), step_frames: false, direct_boot: false }
    }
}

/// Master clocks in one full frame: 228 lines of 308 dots, 4 clocks per dot.
pub const CYCLES_PER_FRAME: u64 = 280896;

/// Mathematical view of the whole console.
#[verifier::ext_equal]
pub ghost struct SysView {
    pub bios: Seq<u8>,
    pub bram: Seq<u8>,
    pub cram: Seq<u8>,
    pub pram: Seq<u8>,
    pub vram: Seq<u8>,
    pub oam: Seq<u8>,
    pub rom: Seq<u8>,
    pub gram: Seq<u8>,
    pub ee: EeView,
    pub reg: Seq<u8>,
    pub counts: Seq<u16>,
    pub cycles: u64,
    pub dma: Dma,
    pub prefetch: u32,
    pub col: u32,
    pub row: u32,
    pub delay: u8,
    pub rs: RsView,
    pub pixels: Seq<u8>,
}

/// The console: all memory blocks, the IO register file, the pixel unit,
/// the sound stub, and the CPU's last prefetch address, which gates BIOS
/// reads.
pub struct Gba {
    pub mmu: GbaMmu,
    pub io: IoReg,
    pub ppu: Ppu,
    pub spu: Spu,
    pub prefetch: u32,
}

impl Gba {
    pub open spec fn view(&self) -> SysView {
        SysView {
            bios: self.mmu.bios.rom@,
            bram: self.mmu.bram@,
            cram: self.mmu.cram@,
            pram: self.mmu.pram@,
            vram: self.mmu.vram@,
            oam: self.mmu.oam@,
            rom: self.mmu.rom@,
            gram: self.mmu.gram@,
            ee: self.mmu.ee@,
            reg: self.io.reg@,
            counts: self.io.timers.counts@,
            cycles: self.io.timers.cycles,
            dma: self.io.dma,
            prefetch: self.prefetch,
            col: self.ppu.col,
            row: self.ppu.row,
            delay: self.ppu.delay,
            rs: self.ppu.state@,
            pixels: self.ppu.pixels@,
        }
    }

    pub open spec fn wf(&self) -> bool {
        &&& self.mmu.wf()
        &&& self.io.wf()
        &&& self.ppu.wf()
        &&& 0 <= self.spu.idx < 1024
    }

    /// Builds the console around the two program images.
    pub fn new(rom: GameRom, bios: GameRom) -> (r: Gba)
        ensures
            r.wf(),
            r@.rom == rom@,
            r@.bios == bios@,
            r@.col == 0 && r@.row == 0 && r@.delay == 0,
            r@.prefetch == 0,
            r@.reg == crate::io::sp_initial_reg(),
            r@.ee == EeView::initial(),
            r@.bram == Seq::<u8>::new(0x40000, |i: int| 0u8),
            r@.cram == Seq::<u8>::new(0x8000, |i: int| 0u8),
            r@.pram == Seq::<u8>::new(0x400, |i: int| 0u8),
            r@.vram == Seq::<u8>::new(0x20000, |i: int| 0u8),
            r@.oam == Seq::<u8>::new(0x400, |i: int| 0u8),
            r@.gram == Seq::<u8>::new(0x10000, |i: int| 0u8),
            r@.counts == Seq::new(4, |i: int| 0u16),
            r@.cycles == 0,
            r@.dma == Dma::initial(),
    {
        Gba {
            mmu: GbaMmu::new(rom, bios),
            io: IoReg::new(),
            ppu: Ppu::new(),
            spu: Spu::new(),
            prefetch: 0,
        }
    }

    /// Records the CPU's current prefetch address; BIOS reads succeed only
    /// while it lies inside the BIOS window.
    pub fn set_prefetch(&mut self, addr: u32)
        requires
            old(self).wf(),
        ensures
            final(self).wf(),
            final(self)@ == (SysView { prefetch: addr, ..old(self)@ }),
    {
        self.prefetch = addr;
    }


    /// Whether the console sits at a frame boundary, where save states are
    /// taken: no transient line state is then live.
    pub fn at_frame_boundary(&self) -> (r: bool)
        ensures
            r == (self@.col == 0 && self@.row == 0),
    {
        self.ppu.col == 0 && self.ppu.row == 0
    }

    /// Access cycles the CPU must budget for a bus access of `width` bytes
    /// at `addr`, under the wait states the current WAITCNT value selects.
    pub fn get_waitstates(&self, addr: u32, width: u8, seq: bool) -> (r: u8)
        requires
            self.wf(),
        ensures
            ({
                let w = crate::mmu::gba::wait::WaitStates::from_waitcnt(
                    sp_le16(self@.reg, 0x204),
                );
                r == w.sp_waits_range(crate::bit_util::sp_extract(addr, 24, 4), seq) + if width
                    == 4 {
                    w.sp_waits_range(crate::bit_util::sp_extract(addr, 24, 4), true)
                } else {
                    0u8
                }
            }),
    {
        let mut w = crate::mmu::gba::wait::WaitStates::new();
        w.set_waitcnt(self.io.get_priv(0x204));
        w.get_waitstates(addr, width, seq)
    }

    /// Whether an interrupt is pending for the CPU; the caller must still
    /// check the CPU-side interrupt-enable flag before taking it.
    pub fn irq_ready(&self) -> (r: bool)
        requires
            self.wf(),
        ensures
            r == crate::io::sp_irq_ready(self@.reg),
    {
        self.io.irq_ready()
    }
}

/// What a byte-wide bus read at `addr` answers, and the console afterwards:
/// only the serial EEPROM changes state on a read. Open-bus reads answer 0.
pub open spec fn sp_read8(v: SysView, addr: u32) -> (SysView, u8) {
    let r = sp_match_addr(addr);
    let na = sp_convert_addr(r, addr);
    match r {
        MemoryRange::Bios => (
            v,
            if na < 0x4000 && v.prefetch < 0x4000 && na < v.bios.len() {
                v.bios[na as int]
            } else {
                0u8
            },
        ),
        MemoryRange::BoardWram => (v, v.bram[na as int]),
        MemoryRange::ChipWram => (v, v.cram[na as int]),
        MemoryRange::IoRegister => (
            v,
            match crate::io::sp_io_get16(v.reg, v.counts, na & !1u32) {
                MemoryRead::Value(x) => ((x >> (((na & 1) * 8) as u16)) as u8),
                MemoryRead::Open => 0u8,
            },
        ),
        MemoryRange::Palette => (v, v.pram[na as int]),
        MemoryRange::VideoRam => (v, v.vram[na as int]),
        MemoryRange::ObjectAttr => (v, v.oam[na as int]),
        MemoryRange::GamePakRom => (
            v,
            if na < v.rom.len() {
                v.rom[na as int]
            } else {
                0u8
            },
        ),
        MemoryRange::GamePakEe => {
            let s = sp_ee_read(v.ee);
            (SysView { ee: s.0, ..v }, s.1 as u8)
        },
        MemoryRange::GamePakSram => (v, v.gram[na as int]),
        MemoryRange::Unused => (v, 0u8),
    }
}

/// What a 16-bit bus read at `addr` answers, and the console afterwards.
pub open spec fn sp_read16(v: SysView, addr: u32) -> (SysView, u16) {
    let r = sp_match_addr(addr);
    let na = sp_convert_addr(r, addr);
    match r {
        MemoryRange::Bios => (
            v,
            if na < 0x4000 && v.prefetch < 0x4000 && na + 2 <= v.bios.len() {
                sp_le16(v.bios, na as int)
            } else {
                0u16
            },
        ),
        MemoryRange::BoardWram => (
            v,
            if na + 2 <= v.bram.len() {
                sp_le16(v.bram, na as int)
            } else {
                0u16
            },
        ),
        MemoryRange::ChipWram => (
            v,
            if na + 2 <= v.cram.len() {
                sp_le16(v.cram, na as int)
            } else {
                0u16
            },
        ),
        MemoryRange::IoRegister => (
            v,
            match crate::io::sp_io_get16(v.reg, v.counts, na) {
                MemoryRead::Value(x) => x,
                MemoryRead::Open => 0u16,
            },
        ),
        MemoryRange::Palette => (
            v,
            if na + 2 <= v.pram.len() {
                sp_le16(v.pram, na as int)
            } else {
                0u16
            },
        ),
        MemoryRange::VideoRam => (
            v,
            if na + 2 <= v.vram.len() {
                sp_le16(v.vram, na as int)
            } else {
                0u16
            },
        ),
        MemoryRange::ObjectAttr => (
            v,
            if na + 2 <= v.oam.len() {
                sp_le16(v.oam, na as int)
            } else {
                0u16
            },
        ),
        MemoryRange::GamePakRom => (
            v,
            if na + 2 <= v.rom.len() {
                sp_le16(v.rom, na as int)
            } else {
                0u16
            },
        ),
        MemoryRange::GamePakEe => {
            let s = sp_ee_read(v.ee);
            (SysView { ee: s.0, ..v }, s.1)
        },
        MemoryRange::GamePakSram => (
            v,
            if na + 2 <= v.gram.len() {
                sp_le16(v.gram, na as int)
            } else {
                0u16
            },
        ),
        MemoryRange::Unused => (v, 0u16),
    }
}

/// What a 32-bit bus read at `addr` answers, and the console afterwards.
pub open spec fn sp_read32(v: SysView, addr: u32) -> (SysView, u32) {
    let r = sp_match_addr(addr);
    let na = sp_convert_addr(r, addr);
    match r {
        MemoryRange::Bios => (
            v,
            if na < 0x4000 && v.prefetch < 0x4000 && na + 4 <= v.bios.len() {
                sp_le32(v.bios, na as int)
            } else {
                0u32
            },
        ),
        MemoryRange::BoardWram => (
            v,
            if na + 4 <= v.bram.len() {
                sp_le32(v.bram, na as int)
            } else {
                0u32
            },
        ),
        MemoryRange::ChipWram => (
            v,
            if na + 4 <= v.cram.len() {
                sp_le32(v.cram, na as int)
            } else {
                0u32
            },
        ),
        MemoryRange::IoRegister => (
            v,
            match crate::io::sp_io_get16(v.reg, v.counts, na) {
                MemoryRead::Value(lo) => {
                    let hi: u16 = match crate::io::sp_io_get16(v.reg, v.counts, (na + 2) as u32) {
                        MemoryRead::Value(x) => x,
                        MemoryRead::Open => 0u16,
                    };
                    (lo as u32) | ((hi as u32) << 16)
                },
                MemoryRead::Open => 0u32,
            },
        ),
        MemoryRange::Palette => (
            v,
            if na + 4 <= v.pram.len() {
                sp_le32(v.pram, na as int)
            } else {
                0u32
            },
        ),
        MemoryRange::VideoRam => (
            v,
            if na + 4 <= v.vram.len() {
                sp_le32(v.vram, na as int)
            } else {
                0u32
            },
        ),
        MemoryRange::ObjectAttr => (
            v,
            if na + 4 <= v.oam.len() {
                sp_le32(v.oam, na as int)
            } else {
                0u32
            },
        ),
        MemoryRange::GamePakRom => (
            v,
            if na + 4 <= v.rom.len() {
                sp_le32(v.rom, na as int)
            } else {
                0u32
            },
        ),
        MemoryRange::GamePakEe => {
            let s = sp_ee_read(v.ee);
            (SysView { ee: s.0, ..v }, s.1 as u32)
        },
        MemoryRange::GamePakSram => (
            v,
            if na + 4 <= v.gram.len() {
                sp_le32(v.gram, na as int)
            } else {
                0u32
            },
        ),
        MemoryRange::Unused => (v, 0u32),
    }
}

impl Gba {
    /// A byte-wide bus read; see [`sp_read8`]. Reads of unmapped addresses
    /// and open answers read 0 and warn no further.
    pub fn load8(&mut self, addr: u32) -> (r: u8)
        requires
            old(self).wf(),
        ensures
            final(self).wf(),
            final(self)@ == sp_read8(old(self)@, addr).0,
            r == sp_read8(old(self)@, addr).1,
    {
        let range = MemoryRange::match_addr(addr);
        let na = range.convert_addr(addr);
        match range {
            MemoryRange::Bios => {
                match self.mmu.bios.load8(na, self.prefetch) {
                    MemoryRead::Value(x) => x,
                    MemoryRead::Open => 0,
                }
            },
            MemoryRange::BoardWram => {
                proof {
                    assert(na < 0x40000);
                }
                self.mmu.bram.load8(na).get()
            },
            MemoryRange::ChipWram => {
                proof {
                    assert(na < 0x8000);
                }
                self.mmu.cram.load8(na).get()
            },
            MemoryRange::IoRegister => {
                match self.io.get(na & !1) {
                    MemoryRead::Value(x) => (x >> (((na & 1) * 8) as u16)) as u8,
                    MemoryRead::Open => 0,
                }
            },
            MemoryRange::Palette => {
                proof {
                    assert(na < 0x400);
                }
                self.mmu.pram.load8(na).get()
            },
            MemoryRange::VideoRam => {
                proof {
                    assert(na < 0x18000);
                }
                self.mmu.vram.load8(na).get()
            },
            MemoryRange::ObjectAttr => {
                proof {
                    assert(na < 0x400);
                }
                self.mmu.oam.load8(na).get()
            },
            MemoryRange::GamePakRom => {
                match self.mmu.rom.load8(na) {
                    MemoryRead::Value(x) => x,
                    MemoryRead::Open => 0,
                }
            },
            MemoryRange::GamePakEe => self.mmu.ee.read() as u8,
            MemoryRange::GamePakSram => {
                proof {
                    assert(na < 0x10000);
                }
                self.mmu.gram.load8(na).get()
            },
            MemoryRange::Unused => 0,
        }
    }

    /// A 16-bit bus read; see [`sp_read16`].
    pub fn load16(&mut self, addr: u32) -> (r: u16)
        requires
            old(self).wf(),
        ensures
            final(self).wf(),
            final(self)@ == sp_read16(old(self)@, addr).0,
            r == sp_read16(old(self)@, addr).1,
    {
        let range = MemoryRange::match_addr(addr);
        let na = range.convert_addr(addr);
        match range {
            MemoryRange::Bios => {
                match self.mmu.bios.load16(na, self.prefetch) {
                    MemoryRead::Value(x) => x,
                    MemoryRead::Open => 0,
                }
            },
            MemoryRange::BoardWram => {
                match self.mmu.bram.load16(na) {
                    MemoryRead::Value(x) => x,
                    MemoryRead::Open => 0,
                }
            },
            MemoryRange::ChipWram => {
                match self.mmu.cram.load16(na) {
                    MemoryRead::Value(x) => x,
                    MemoryRead::Open => 0,
                }
            },
            MemoryRange::IoRegister => {
                match self.io.get(na) {
                    MemoryRead::Value(x) => x,
                    MemoryRead::Open => 0,
                }
            },
            MemoryRange::Palette => {
                match self.mmu.pram.load16(na) {
                    MemoryRead::Value(x) => x,
                    MemoryRead::Open => 0,
                }
            },
            MemoryRange::VideoRam => {
                match self.mmu.vram.load16(na) {
                    MemoryRead::Value(x) => x,
                    MemoryRead::Open => 0,
                }
            },
            MemoryRange::ObjectAttr => {
                match self.mmu.oam.load16(na) {
                    MemoryRead::Value(x) => x,
                    MemoryRead::Open => 0,
                }
            },
            MemoryRange::GamePakRom => {
                match self.mmu.rom.load16(na) {
                    MemoryRead::Value(x) => x,
                    MemoryRead::Open => 0,
                }
            },
            MemoryRange::GamePakEe => self.mmu.ee.read(),
            MemoryRange::GamePakSram => {
                match self.mmu.gram.load16(na) {
                    MemoryRead::Value(x) => x,
                    MemoryRead::Open => 0,
                }
            },
            MemoryRange::Unused => 0,
        }
    }

    /// A 32-bit bus read; see [`sp_read32`].
    pub fn load32(&mut self, addr: u32) -> (r: u32)
        requires
            old(self).wf(),
        ensures
            final(self).wf(),
            final(self)@ == sp_read32(old(self)@, addr).0,
            r == sp_read32(old(self)@, addr).1,
    {
        let range = MemoryRange::match_addr(addr);
        let na = range.convert_addr(addr);
        match range {
            MemoryRange::Bios => {
                match self.mmu.bios.load32(na, self.prefetch) {
                    MemoryRead::Value(x) => x,
                    MemoryRead::Open => 0,
                }
            },
            MemoryRange::BoardWram => {
                match self.mmu.bram.load32(na) {
                    MemoryRead::Value(x) => x,
                    MemoryRead::Open => 0,
                }
            },
            MemoryRange::ChipWram => {
                match self.mmu.cram.load32(na) {
                    MemoryRead::Value(x) => x,
                    MemoryRead::Open => 0,
                }
            },
            MemoryRange::IoRegister => {
                match self.io.get(na) {
                    MemoryRead::Value(lo) => {
                        let hi: u16 = match self.io.get(na + 2) {
                            MemoryRead::Value(x) => x,
                            MemoryRead::Open => 0,
                        };
                        (lo as u32) | ((hi as u32) << 16)
                    },
                    MemoryRead::Open => 0,
                }
            },
            MemoryRange::Palette => {
                match self.mmu.pram.load32(na) {
                    MemoryRead::Value(x) => x,
                    MemoryRead::Open => 0,
                }
            },
            MemoryRange::VideoRam => {
                match self.mmu.vram.load32(na) {
                    MemoryRead::Value(x) => x,
                    MemoryRead::Open => 0,
                }
            },
            MemoryRange::ObjectAttr => {
                match self.mmu.oam.load32(na) {
                    MemoryRead::Value(x) => x,
                    MemoryRead::Open => 0,
                }
            },
            MemoryRange::GamePakRom => {
                match self.mmu.rom.load32(na) {
                    MemoryRead::Value(x) => x,
                    MemoryRead::Open => 0,
                }
            },
            MemoryRange::GamePakEe => self.mmu.ee.read() as u32,
            MemoryRange::GamePakSram => {
                match self.mmu.gram.load32(na) {
                    MemoryRead::Value(x) => x,
                    MemoryRead::Open => 0,
                }
            },
            MemoryRange::Unused => 0,
        }
    }
}

/// The console after a 16-bit write lands on the IO register file at block
/// offset `addr`, and the immediate DMA start the write may request.
/// Writes to unwritable registers are dropped; writing IF clears the bits
/// written as 1; read-only masked bits keep their old value; control
/// writes fire their side effects.
pub open spec fn sp_io_write16(v: SysView, addr: u32, val: u16) -> (SysView, Option<(u32, u16)>) {
    if !crate::io::sp_writable(addr) {
        (v, None)
    } else if addr == 0x202 {
        (
            SysView {
                reg: sp_store16(v.reg, 0x202, (sp_le16(v.reg, 0x202) & !val) as u16),
                ..v
            },
            None,
        )
    } else {
        let old16 = sp_le16(v.reg, addr as int);
        let ro = crate::io::sp_ro_mask(addr);
        let nval = ((ro & old16) | (!ro & val)) as u16;
        let reg1 = sp_store16(v.reg, addr as int, nval);
        let v1 = SysView { reg: reg1, ..v };
        if addr == 0x28 || addr == 0x2a || addr == 0x2c || addr == 0x2e {
            (
                SysView {
                    rs: RsView {
                        bg2ref: sp_bgref(
                            sp_le16(reg1, 0x28),
                            sp_le16(reg1, 0x2a),
                            sp_le16(reg1, 0x2c),
                            sp_le16(reg1, 0x2e),
                        ),
                        ..v1.rs
                    },
                    ..v1
                },
                None,
            )
        } else if addr == 0x38 || addr == 0x3a || addr == 0x3c || addr == 0x3e {
            (
                SysView {
                    rs: RsView {
                        bg3ref: sp_bgref(
                            sp_le16(reg1, 0x38),
                            sp_le16(reg1, 0x3a),
                            sp_le16(reg1, 0x3c),
                            sp_le16(reg1, 0x3e),
                        ),
                        ..v1.rs
                    },
                    ..v1
                },
                None,
            )
        } else if addr == 0xba || addr == 0xc6 || addr == 0xd2 || addr == 0xde {
            let ch = ((addr - 0xb0) / 12) as u32;
            let edge = crate::bit_util::sp_bit(old16 as u32, 15) == 0 && crate::bit_util::sp_bit(
                nval as u32,
                15,
            ) == 1;
            if edge {
                let v2 = SysView {
                    dma: v1.dma.with_ch(ch, sp_refreshed_ch(v1.dma.spec_ch(ch), reg1, ch, nval, false)),
                    ..v1
                };
                if crate::bit_util::sp_extract(nval as u32, 12, 2) == 0 {
                    (v2, Some((ch, nval)))
                } else {
                    (v2, None)
                }
            } else {
                (v1, None)
            }
        } else if addr == 0x102 || addr == 0x106 || addr == 0x10a || addr == 0x10e {
            (
                SysView {
                    counts: sp_timers_updated(
                        v.counts,
                        reg1,
                        ((addr - 0x102) / 4) as u32,
                        old16,
                        nval,
                    ),
                    ..v1
                },
                None,
            )
        } else if addr == 0x132 {
            let ki = sp_le16(reg1, 0x130);
            (
                SysView {
                    reg: if crate::io::key::sp_keyintr_fires(ki, nval) {
                        crate::io::sp_raise(reg1, 12)
                    } else {
                        reg1
                    },
                    ..v1
                },
                None,
            )
        } else {
            (v1, None)
        }
    }
}

/// The console after a 16-bit write at `addr`, before any requested DMA
/// start runs; the request is returned beside the state.
pub open spec fn sp_write16_unit(v: SysView, addr: u32, val: u16) -> (SysView, Option<(u32, u16)>) {
    let r = sp_match_addr(addr);
    let na = sp_convert_addr(r, addr);
    match r {
        MemoryRange::Bios => (v, None),
        MemoryRange::BoardWram => (
            SysView {
                bram: if na + 2 <= v.bram.len() {
                    sp_store16(v.bram, na as int, val)
                } else {
                    v.bram
                },
                ..v
            },
            None,
        ),
        MemoryRange::ChipWram => (
            SysView {
                cram: if na + 2 <= v.cram.len() {
                    sp_store16(v.cram, na as int, val)
                } else {
                    v.cram
                },
                ..v
            },
            None,
        ),
        MemoryRange::IoRegister => sp_io_write16(v, na, val),
        MemoryRange::Palette => (
            SysView {
                pram: if na + 2 <= v.pram.len() {
                    sp_store16(v.pram, na as int, val)
                } else {
                    v.pram
                },
                ..v
            },
            None,
        ),
        MemoryRange::VideoRam => (
            SysView {
                vram: if na + 2 <= v.vram.len() {
                    sp_store16(v.vram, na as int, val)
                } else {
                    v.vram
                },
                ..v
            },
            None,
        ),
        MemoryRange::ObjectAttr => (
            SysView {
                oam: if na + 2 <= v.oam.len() {
                    sp_store16(v.oam, na as int, val)
                } else {
                    v.oam
                },
                ..v
            },
            None,
        ),
        MemoryRange::GamePakRom => (v, None),
        MemoryRange::GamePakEe => (
            SysView { ee: sp_ee_write(v.ee, val, v.dma.ch3.len), ..v },
            None,
        ),
        MemoryRange::GamePakSram => (
            SysView {
                gram: if na + 2 <= v.gram.len() {
                    sp_store16(v.gram, na as int, val)
                } else {
                    v.gram
                },
                ..v
            },
            None,
        ),
        MemoryRange::Unused => (v, None),
    }
}

/// The console after a 32-bit write at `addr` that cannot start a DMA
/// transfer: an IO write splits into two halfword writes in low-then-high
/// order with their start requests dropped.
pub open spec fn sp_write32_unit(v: SysView, addr: u32, val: u32) -> SysView {
    let r = sp_match_addr(addr);
    let na = sp_convert_addr(r, addr);
    match r {
        MemoryRange::Bios => v,
        MemoryRange::BoardWram => SysView {
            bram: if na + 4 <= v.bram.len() {
                sp_store32(v.bram, na as int, val)
            } else {
                v.bram
            },
            ..v
        },
        MemoryRange::ChipWram => SysView {
            cram: if na + 4 <= v.cram.len() {
                sp_store32(v.cram, na as int, val)
            } else {
                v.cram
            },
            ..v
        },
        MemoryRange::IoRegister => {
            let v1 = sp_io_write16(v, na, val as u16).0;
            sp_io_write16(v1, (na + 2) as u32, (val >> 16) as u16).0
        },
        MemoryRange::Palette => SysView {
            pram: if na + 4 <= v.pram.len() {
                sp_store32(v.pram, na as int, val)
            } else {
                v.pram
            },
            ..v
        },
        MemoryRange::VideoRam => SysView {
            vram: if na + 4 <= v.vram.len() {
                sp_store32(v.vram, na as int, val)
            } else {
                v.vram
            },
            ..v
        },
        MemoryRange::ObjectAttr => SysView {
            oam: if na + 4 <= v.oam.len() {
                sp_store32(v.oam, na as int, val)
            } else {
                v.oam
            },
            ..v
        },
        MemoryRange::GamePakRom => v,
        MemoryRange::GamePakEe => SysView { ee: sp_ee_write(v.ee, val as u16, v.dma.ch3.len), ..v },
        MemoryRange::GamePakSram => SysView {
            gram: if na + 4 <= v.gram.len() {
                sp_store32(v.gram, na as int, val)
            } else {
                v.gram
            },
            ..v
        },
        MemoryRange::Unused => v,
    }
}

/// The console and remaining cursor addresses after moving the last `n`
/// units of a transfer, reading at `sad` and writing at `dad`.
pub open spec fn sp_copy_from(
    v: SysView,
    sad: u32,
    dad: u32,
    n: u32,
    halfword: bool,
    sinc: u32,
    dinc: u32,
) -> (SysView, u32, u32)
    decreases n,
{
    if n == 0 {
        (v, sad, dad)
    } else if halfword {
        let r = sp_read16(v, sad);
        let w = sp_write16_unit(r.0, dad, r.1);
        sp_copy_from(
            w.0,
            vstd::wrapping::u32_specs::wrapping_add(sad, sinc),
            vstd::wrapping::u32_specs::wrapping_add(dad, dinc),
            (n - 1) as u32,
            halfword,
            sinc,
            dinc,
        )
    } else {
        let r = sp_read32(v, sad);
        let w = sp_write32_unit(r.0, dad, r.1);
        sp_copy_from(
            w,
            vstd::wrapping::u32_specs::wrapping_add(sad, sinc),
            vstd::wrapping::u32_specs::wrapping_add(dad, dinc),
            (n - 1) as u32,
            halfword,
            sinc,
            dinc,
        )
    }
}

/// The address step a DMA increment mode selects: forward, backward,
/// fixed, or (for destinations) forward with reload.
pub open spec fn sp_dma_inc(sel: u32, word: u32) -> u32 {
    if sel == 1 {
        vstd::wrapping::u32_specs::wrapping_sub(0u32, word)
    } else if sel == 2 {
        0u32
    } else {
        word
    }
}

/// The console after channel `ch` runs one whole transfer under `ctrl`:
/// the source aligns down to the unit size, every unit moves through the
/// bus, and the walked cursor addresses are latched back.
pub open spec fn sp_do_copy(v: SysView, ch: u32, ctrl: u16) -> SysView {
    let c = v.dma.spec_ch(ch);
    let halfword = crate::bit_util::sp_bit(ctrl as u32, 10) == 0;
    let word: u32 = if halfword {
        2u32
    } else {
        4u32
    };
    let dinc = sp_dma_inc(crate::bit_util::sp_extract(ctrl as u32, 5, 2), word);
    let sinc = sp_dma_inc(crate::bit_util::sp_extract(ctrl as u32, 7, 2), word);
    let sad0: u32 = if halfword {
        c.sad & 0xfffffffe
    } else {
        c.sad & 0xfffffffc
    };
    let f = sp_copy_from(v, sad0, c.dad, c.len, halfword, sinc, dinc);
    SysView { dma: f.0.dma.with_ch(ch, DmaCh { sad: f.1, dad: f.2, len: c.len }), ..f.0 }
}

/// The console after channel `ch` starts under `ctrl`: the transfer runs
/// to completion, a non-repeating channel clears its enable bit, and a
/// channel with its interrupt bit set raises its DMA interrupt source.
pub open spec fn sp_dma_start(v: SysView, ch: u32, ctrl: u16) -> SysView {
    let v1 = sp_do_copy(v, ch, ctrl);
    let v2 = if crate::bit_util::sp_bit(ctrl as u32, 9) == 0 {
        SysView {
            reg: sp_store16(v1.reg, 0xba + 12 * ch as int, (ctrl & 0x7fff) as u16),
            ..v1
        }
    } else {
        v1
    };
    if crate::bit_util::sp_bit(ctrl as u32, 14) == 1 {
        SysView { reg: crate::io::sp_raise(v2.reg, (8 + ch) as u8), ..v2 }
    } else {
        v2
    }
}

/// The console after a full 16-bit write at `addr`: the write itself, then
/// any immediate DMA transfer it started.
pub open spec fn sp_write16(v: SysView, addr: u32, val: u16) -> SysView {
    let u = sp_write16_unit(v, addr, val);
    match u.1 {
        Option::None => u.0,
        Option::Some(rq) => sp_dma_start(u.0, rq.0, rq.1),
    }
}

/// The console after a full byte-wide write at `addr`: an IO write folds
/// the byte into its halfword pair, other regions store the byte.
pub open spec fn sp_write8(v: SysView, addr: u32, val: u8) -> SysView {
    let r = sp_match_addr(addr);
    let na = sp_convert_addr(r, addr);
    match r {
        MemoryRange::Bios => v,
        MemoryRange::BoardWram => SysView {
            bram: if na < v.bram.len() {
                v.bram.update(na as int, val)
            } else {
                v.bram
            },
            ..v
        },
        MemoryRange::ChipWram => SysView {
            cram: if na < v.cram.len() {
                v.cram.update(na as int, val)
            } else {
                v.cram
            },
            ..v
        },
        MemoryRange::IoRegister => {
            let pv: u16 = if na < 0x804 {
                sp_le16(v.reg, (na & !1u32) as int)
            } else {
                0u16
            };
            let shift = ((na & 1) * 8) as u16;
            let mask = (0xff00u16 >> shift) as u16;
            let nv = ((pv & mask) | ((val as u16) << shift)) as u16;
            let u = sp_io_write16(v, na & !1u32, nv);
            match u.1 {
                Option::None => u.0,
                Option::Some(rq) => sp_dma_start(u.0, rq.0, rq.1),
            }
        },
        MemoryRange::Palette => SysView {
            pram: if na < v.pram.len() {
                v.pram.update(na as int, val)
            } else {
                v.pram
            },
            ..v
        },
        MemoryRange::VideoRam => SysView {
            vram: if na < v.vram.len() {
                v.vram.update(na as int, val)
            } else {
                v.vram
            },
            ..v
        },
        MemoryRange::ObjectAttr => SysView {
            oam: if na < v.oam.len() {
                v.oam.update(na as int, val)
            } else {
                v.oam
            },
            ..v
        },
        MemoryRange::GamePakRom => v,
        MemoryRange::GamePakEe => SysView {
            ee: sp_ee_write(v.ee, val as u16, v.dma.ch3.len),
            ..v
        },
        MemoryRange::GamePakSram => SysView {
            gram: if na < v.gram.len() {
                v.gram.update(na as int, val)
            } else {
                v.gram
            },
            ..v
        },
        MemoryRange::Unused => v,
    }
}

/// The console after a full 32-bit write at `addr`: an IO write is two
/// full halfword writes in low-then-high order, each able to start a DMA
/// transfer; other regions store the word.
pub open spec fn sp_write32(v: SysView, addr: u32, val: u32) -> SysView {
    let r = sp_match_addr(addr);
    let na = sp_convert_addr(r, addr);
    match r {
        MemoryRange::IoRegister => {
            let a = sp_io_write16(v, na, val as u16);
            let v1 = match a.1 {
                Option::None => a.0,
                Option::Some(rq) => sp_dma_start(a.0, rq.0, rq.1),
            };
            let b = sp_io_write16(v1, (na + 2) as u32, (val >> 16) as u16);
            match b.1 {
                Option::None => b.0,
                Option::Some(rq) => sp_dma_start(b.0, rq.0, rq.1),
            }
        },
        _ => sp_write32_unit(v, addr, val),
    }
}

/// The console after `trigger` fires: channels 0 to 3 that wait on it are
/// latched and run, in channel order.
pub open spec fn sp_dma_trigger_from(v: SysView, t: Trigger, ch: int) -> SysView
    decreases 4 - ch,
{
    if ch < 0 || ch >= 4 {
        v
    } else {
        let ctrl = sp_le16(v.reg, 0xba + 12 * ch);
        if sp_dma_want_trigger(ch as u32, ctrl, t) {
            let v1 = SysView {
                dma: v.dma.with_ch(
                    ch as u32,
                    sp_refreshed_ch(v.dma.spec_ch(ch as u32), v.reg, ch as u32, ctrl, true),
                ),
                ..v
            };
            sp_dma_trigger_from(sp_dma_start(v1, ch as u32, ctrl), t, ch + 1)
        } else {
            sp_dma_trigger_from(v, t, ch + 1)
        }
    }
}

impl Gba {
    /// A 16-bit write landing on the IO register file; see
    /// [`sp_io_write16`]. The caller must run any returned DMA start.
    fn io_write16(&mut self, addr: u32, val: u16) -> (r: Option<(u32, u16)>)
        requires
            old(self).wf(),
        ensures
            final(self).wf(),
            final(self)@ == sp_io_write16(old(self)@, addr, val).0,
            r == sp_io_write16(old(self)@, addr, val).1,
            r matches Some(rq) ==> rq.0 < 4,
    {
        if !crate::io::writable(addr) {
            return None;
        }
        proof {
            crate::io::lemma_rw_in_bounds(addr);
        }
        if addr == 0x202 {
            self.io.disable_intrreq(val);
            return None;
        }
        let old16 = self.io.get_priv(addr);
        let ro = crate::io::ro_mask(addr);
        let nval = (ro & old16) | (!ro & val);
        self.io.set_priv(addr, nval);
        match addr {
            0x28 | 0x2a | 0x2c | 0x2e => {
                self.update_bg2ref();
                None
            },
            0x38 | 0x3a | 0x3c | 0x3e => {
                self.update_bg3ref();
                None
            },
            0xba | 0xc6 | 0xd2 | 0xde => {
                let ch = (addr - 0xb0) / 12;
                if self.io.dma_updated(ch, old16, nval) {
                    Some((ch, nval))
                } else {
                    None
                }
            },
            0x102 | 0x106 | 0x10a | 0x10e => {
                self.io.timers_updated((addr - 0x102) / 4, old16, nval);
                None
            },
            0x132 => {
                let ki = self.io.get_priv(0x130);
                self.io.check_key_intr(ki, nval);
                None
            },
            _ => None,
        }
    }

    /// Latches the BG2 affine reference point from its IO registers.
    pub fn update_bg2ref(&mut self)
        requires
            old(self).wf(),
        ensures
            final(self).wf(),
            final(self)@ == (SysView {
                rs: RsView {
                    bg2ref: sp_bgref(
                        sp_le16(old(self)@.reg, 0x28),
                        sp_le16(old(self)@.reg, 0x2a),
                        sp_le16(old(self)@.reg, 0x2c),
                        sp_le16(old(self)@.reg, 0x2e),
                    ),
                    ..old(self)@.rs
                },
                ..old(self)@
            }),
    {
        let xl = self.io.get_priv(0x28);
        let xh = self.io.get_priv(0x2a);
        let yl = self.io.get_priv(0x2c);
        let yh = self.io.get_priv(0x2e);
        self.ppu.state.bg2ref = BgRef::new(xl, xh, yl, yh);
    }

    /// Latches the BG3 affine reference point from its IO registers.
    pub fn update_bg3ref(&mut self)
        requires
            old(self).wf(),
        ensures
            final(self).wf(),
            final(self)@ == (SysView {
                rs: RsView {
                    bg3ref: sp_bgref(
                        sp_le16(old(self)@.reg, 0x38),
                        sp_le16(old(self)@.reg, 0x3a),
                        sp_le16(old(self)@.reg, 0x3c),
                        sp_le16(old(self)@.reg, 0x3e),
                    ),
                    ..old(self)@.rs
                },
                ..old(self)@
            }),
    {
        let xl = self.io.get_priv(0x38);
        let xh = self.io.get_priv(0x3a);
        let yl = self.io.get_priv(0x3c);
        let yh = self.io.get_priv(0x3e);
        self.ppu.state.bg3ref = BgRef::new(xl, xh, yl, yh);
    }

    /// A 16-bit write that never starts a transfer; see
    /// [`sp_write16_unit`]. The DMA engine's own writes go through here.
    fn write16_unit(&mut self, addr: u32, val: u16) -> (r: Option<(u32, u16)>)
        requires
            old(self).wf(),
        ensures
            final(self).wf(),
            final(self)@ == sp_write16_unit(old(self)@, addr, val).0,
            r == sp_write16_unit(old(self)@, addr, val).1,
            r matches Some(rq) ==> rq.0 < 4,
    {
        let range = MemoryRange::match_addr(addr);
        let na = range.convert_addr(addr);
        match range {
            MemoryRange::Bios => None,
            MemoryRange::BoardWram => {
                self.mmu.bram.set16(na, val);
                None
            },
            MemoryRange::ChipWram => {
                self.mmu.cram.set16(na, val);
                None
            },
            MemoryRange::IoRegister => self.io_write16(na, val),
            MemoryRange::Palette => {
                self.mmu.pram.set16(na, val);
                None
            },
            MemoryRange::VideoRam => {
                self.mmu.vram.set16(na, val);
                None
            },
            MemoryRange::ObjectAttr => {
                self.mmu.oam.set16(na, val);
                None
            },
            MemoryRange::GamePakRom => None,
            MemoryRange::GamePakEe => {
                let len = self.io.dma_length();
                self.mmu.ee.write(val, len);
                None
            },
            MemoryRange::GamePakSram => {
                self.mmu.gram.set16(na, val);
                None
            },
            MemoryRange::Unused => None,
        }
    }

    /// A 32-bit write that never starts a transfer; see
    /// [`sp_write32_unit`].
    fn write32_unit(&mut self, addr: u32, val: u32)
        requires
            old(self).wf(),
        ensures
            final(self).wf(),
            final(self)@ == sp_write32_unit(old(self)@, addr, val),
    {
        let range = MemoryRange::match_addr(addr);
        let na = range.convert_addr(addr);
        match range {
            MemoryRange::Bios => {},
            MemoryRange::BoardWram => self.mmu.bram.set32(na, val),
            MemoryRange::ChipWram => self.mmu.cram.set32(na, val),
            MemoryRange::IoRegister => {
                let _ = self.io_write16(na, val as u16);
                let _ = self.io_write16(na + 2, (val >> 16) as u16);
            },
            MemoryRange::Palette => self.mmu.pram.set32(na, val),
            MemoryRange::VideoRam => self.mmu.vram.set32(na, val),
            MemoryRange::ObjectAttr => self.mmu.oam.set32(na, val),
            MemoryRange::GamePakRom => {},
            MemoryRange::GamePakEe => {
                let len = self.io.dma_length();
                self.mmu.ee.write(val as u16, len);
            },
            MemoryRange::GamePakSram => self.mmu.gram.set32(na, val),
            MemoryRange::Unused => {},
        }
    }

    /// Runs channel `ch`'s copy loop under `ctrl`; see [`sp_do_copy`].
    fn do_copy(&mut self, ch: u32, ctrl: u16)
        requires
            old(self).wf(),
            ch < 4,
        ensures
            final(self).wf(),
            final(self)@ == sp_do_copy(old(self)@, ch, ctrl),
    {
        let c = self.io.dma.ch(ch);
        let halfword = crate::bit_util::bit(ctrl as u32, 10) == 0;
        let word: u32 = if halfword {
            2
        } else {
            4
        };
        let dsel = crate::bit_util::extract(ctrl as u32, 5, 2);
        let ssel = crate::bit_util::extract(ctrl as u32, 7, 2);
        let dinc: u32 = if dsel == 1 {
            0u32.wrapping_sub(word)
        } else if dsel == 2 {
            0
        } else {
            word
        };
        let sinc: u32 = if ssel == 1 {
            0u32.wrapping_sub(word)
        } else if ssel == 2 {
            0
        } else {
            word
        };
        let mut sad: u32 = if halfword {
            c.sad & 0xfffffffe
        } else {
            c.sad & 0xfffffffc
        };
        let mut dad: u32 = c.dad;
        let len = c.len;

        let ghost v0 = self@;
        let ghost sad0 = sad;
        let ghost dad0 = dad;

        let mut n: u32 = len;
        while n > 0
            invariant
                self.wf(),
                n <= len,
                sp_copy_from(self@, sad, dad, n, halfword, sinc, dinc) == sp_copy_from(
                    v0,
                    sad0,
                    dad0,
                    len,
                    halfword,
                    sinc,
                    dinc,
                ),
            decreases n,
        {
            if halfword {
                let val = self.load16(sad);
                let _ = self.write16_unit(dad, val);
            } else {
                let val = self.load32(sad);
                self.write32_unit(dad, val);
            }
            sad = sad.wrapping_add(sinc);
            dad = dad.wrapping_add(dinc);
            n = n - 1;
        }

        self.io.dma.set_ch(ch, DmaCh { sad, dad, len });
        proof {
            assert(self@ =~= sp_do_copy(v0, ch, ctrl));
        }
    }

    /// Starts channel `ch` under `ctrl`; see [`sp_dma_start`]. After a
    /// non-repeating start the enable bit in the channel's control register
    /// reads 0, and with the interrupt bit set IF gains bit `8 + ch`.
    fn dma_start(&mut self, ch: u32, ctrl: u16)
        requires
            old(self).wf(),
            ch < 4,
        ensures
            final(self).wf(),
            final(self)@ == sp_dma_start(old(self)@, ch, ctrl),
    {
        self.do_copy(ch, ctrl);
        if crate::bit_util::bit(ctrl as u32, 9) == 0 {
            let nctrl = ctrl & 0x7fff;
            self.io.set_priv(0xba + 12 * ch, nctrl);
        }
        if crate::bit_util::bit(ctrl as u32, 14) == 1 {
            self.io.raise_interrupt(8 + (ch as u8));
        }
    }

    /// Fires `trigger` at every waiting channel; see
    /// [`sp_dma_trigger_from`].
    pub fn dma_trigger(&mut self, trigger: Trigger)
        requires
            old(self).wf(),
        ensures
            final(self).wf(),
            final(self)@ == sp_dma_trigger_from(old(self)@, trigger, 0),
    {
        let mut ch: u32 = 0;
        while ch < 4
            invariant
                self.wf(),
                ch <= 4,
                sp_dma_trigger_from(self@, trigger, ch as int) == sp_dma_trigger_from(
                    old(self)@,
                    trigger,
                    0,
                ),
            decreases 4 - ch,
        {
            let ctrl = self.io.get_priv(0xba + 12 * ch);
            if self.io.dma_want_trigger(ch, ctrl, trigger) {
                self.io.dma_refresh(ch, ctrl, true);
                self.dma_start(ch, ctrl);
            }
            ch = ch + 1;
        }
    }

    /// A full 16-bit bus write; see [`sp_write16`].
    pub fn write16(&mut self, addr: u32, val: u16)
        requires
            old(self).wf(),
        ensures
            final(self).wf(),
            final(self)@ == sp_write16(old(self)@, addr, val),
    {
        let req = self.write16_unit(addr, val);
        match req {
            Option::Some((ch, ctrl)) => self.dma_start(ch, ctrl),
            Option::None => {},
        }
    }

    /// A full byte-wide bus write; see [`sp_write8`].
    pub fn write8(&mut self, addr: u32, val: u8)
        requires
            old(self).wf(),
        ensures
            final(self).wf(),
            final(self)@ == sp_write8(old(self)@, addr, val),
    {
        let range = MemoryRange::match_addr(addr);
        let na = range.convert_addr(addr);
        match range {
            MemoryRange::Bios => {},
            MemoryRange::BoardWram => self.mmu.bram.set8(na, val),
            MemoryRange::ChipWram => self.mmu.cram.set8(na, val),
            MemoryRange::IoRegister => {
                proof {
                    assert(na < 0x804 ==> (na & !1u32) + 2 <= 0x804 && (na & !1u32) <= na && (na
                        & 1) <= 1) by (bit_vector);
                }
                let pv: u16 = if na < 0x804 {
                    self.io.get_priv(na & !1)
                } else {
                    0
                };
                let shift = ((na & 1) * 8) as u16;
                let mask = 0xff00u16 >> shift;
                let nv = (pv & mask) | ((val as u16) << shift);
                let req = self.io_write16(na & !1, nv);
                match req {
                    Option::Some((ch, ctrl)) => self.dma_start(ch, ctrl),
                    Option::None => {},
                }
            },
            MemoryRange::Palette => self.mmu.pram.set8(na, val),
            MemoryRange::VideoRam => self.mmu.vram.set8(na, val),
            MemoryRange::ObjectAttr => self.mmu.oam.set8(na, val),
            MemoryRange::GamePakRom => {},
            MemoryRange::GamePakEe => {
                let len = self.io.dma_length();
                self.mmu.ee.write(val as u16, len);
            },
            MemoryRange::GamePakSram => self.mmu.gram.set8(na, val),
            MemoryRange::Unused => {},
        }
    }

    /// A full 32-bit bus write; see [`sp_write32`].
    pub fn write32(&mut self, addr: u32, val: u32)
        requires
            old(self).wf(),
        ensures
            final(self).wf(),
            final(self)@ == sp_write32(old(self)@, addr, val),
    {
        let range = MemoryRange::match_addr(addr);
        let na = range.convert_addr(addr);
        match range {
            MemoryRange::IoRegister => {
                let req = self.io_write16(na, val as u16);
                match req {
                    Option::Some((ch, ctrl)) => self.dma_start(ch, ctrl),
                    Option::None => {},
                }
                let req2 = self.io_write16(na + 2, (val >> 16) as u16);
                match req2 {
                    Option::Some((ch, ctrl)) => self.dma_start(ch, ctrl),
                    Option::None => {},
                }
            },
            _ => self.write32_unit(addr, val),
        }
    }
}

/// The frame buffer after packing columns `x` and beyond of `line` into
/// host pixels on `row`.
pub open spec fn sp_pack_row_from(pixels: Seq<u8>, line: Seq<u32>, row: u32, x: int) -> Seq<u8>
    decreases 240 - x,
{
    if x < 0 || x >= 240 {
        pixels
    } else {
        sp_pack_row_from(
            sp_store32(
                pixels,
                (row * 240 + x) * 4,
                sp_colour_pack(sp_colour16_rgb(line[x] as u16)),
            ),
            line,
            row,
            x + 1,
        )
    }
}

/// The console after rendering scanline `row`: the render state advances
/// by one combined line and the frame buffer row takes its colors.
pub open spec fn sp_render_line(v: SysView, row: u32) -> SysView {
    let dspcnt = sp_le16(v.reg, 0);
    let rs2 = sp_combine_line(v.rs, v.reg, v.vram, v.pram, v.oam, dspcnt, row);
    SysView { rs: rs2, pixels: sp_pack_row_from(v.pixels, rs2.line, row, 0), ..v }
}

/// The console at the first dot of a frame: both affine reference points
/// latch from IO and the VBlank flag clears.
pub open spec fn sp_frame_start(v: SysView) -> SysView {
    SysView {
        rs: RsView {
            bg2ref: sp_bgref(
                sp_le16(v.reg, 0x28),
                sp_le16(v.reg, 0x2a),
                sp_le16(v.reg, 0x2c),
                sp_le16(v.reg, 0x2e),
            ),
            bg3ref: sp_bgref(
                sp_le16(v.reg, 0x38),
                sp_le16(v.reg, 0x3a),
                sp_le16(v.reg, 0x3c),
                sp_le16(v.reg, 0x3e),
            ),
            ..v.rs
        },
        reg: sp_store16(v.reg, 4, (sp_le16(v.reg, 4) & !1u16) as u16),
        ..v
    }
}

/// The console at the first dot of a line: VCOUNT takes the row, the
/// VCounter flag follows the match setting (raising its interrupt when
/// enabled), the HBlank flag clears, and visible rows render.
pub open spec fn sp_line_start(v: SysView) -> SysView {
    let reg1 = sp_store16(v.reg, 6, v.row as u16);
    let ds = sp_le16(reg1, 4);
    let matchv = (ds >> 8) == v.row as u16;
    let reg2 = if matchv && (ds & 0x20) != 0 {
        crate::io::sp_raise(reg1, 2)
    } else {
        reg1
    };
    let ds3 = if matchv {
        ((ds | 4) & !2u16) as u16
    } else {
        ((ds & !4u16) & !2u16) as u16
    };
    let reg3 = sp_store16(reg2, 4, ds3);
    let v1 = SysView { reg: reg3, ..v };
    if v.row < 160 {
        sp_render_line(v1, v.row)
    } else {
        v1
    }
}

/// The console at dot 240 of a line: the HBlank flag sets (raising its
/// interrupt when enabled) and visible rows fire the HBlank DMA trigger.
pub open spec fn sp_hblank(v: SysView) -> SysView {
    let ds = sp_le16(v.reg, 4);
    let ds1 = (ds | 2) as u16;
    let reg1 = if (ds1 & 0x10) != 0 {
        crate::io::sp_raise(v.reg, 1)
    } else {
        v.reg
    };
    let reg2 = sp_store16(reg1, 4, ds1);
    let v1 = SysView { reg: reg2, ..v };
    if v.row < 160 {
        sp_dma_trigger_from(v1, Trigger::HBlank, 0)
    } else {
        v1
    }
}

/// The console at the first dot past the visible rows: the VBlank flag
/// sets (raising its interrupt when enabled) and the VBlank DMA trigger
/// fires.
pub open spec fn sp_vblank(v: SysView) -> SysView {
    let ds = sp_le16(v.reg, 4);
    let ds1 = (ds | 1) as u16;
    let reg1 = if (ds1 & 8) != 0 {
        crate::io::sp_raise(v.reg, 0)
    } else {
        v.reg
    };
    let reg2 = sp_store16(reg1, 4, ds1);
    sp_dma_trigger_from(SysView { reg: reg2, ..v }, Trigger::VBlank, 0)
}

/// The console after one master clock of the pixel unit, and whether the
/// frame just completed. A dot advances every fourth clock.
pub open spec fn sp_ppu_cycle(v: SysView) -> (SysView, bool) {
    if v.delay != 0 {
        (SysView { delay: (v.delay - 1) as u8, ..v }, false)
    } else {
        let v1 = SysView { delay: 3u8, ..v };
        let v2 = if v1.col == 0 {
            let va = if v1.row == 0 {
                sp_frame_start(v1)
            } else {
                v1
            };
            sp_line_start(va)
        } else {
            v1
        };
        let c = (v2.col + 1) as u32;
        if c == 240 {
            (sp_hblank(SysView { col: c, ..v2 }), false)
        } else if c == 308 {
            let r = (v2.row + 1) as u32;
            let v3 = SysView { col: 0, row: r, ..v2 };
            if r == 160 {
                (sp_vblank(v3), false)
            } else if r == 228 {
                (SysView { row: 0, ..v3 }, true)
            } else {
                (v3, false)
            }
        } else {
            (SysView { col: c, ..v2 }, false)
        }
    }
}

impl Gba {
    /// Renders scanline `row` into the line buffers and the frame buffer;
    /// see [`sp_render_line`].
    pub fn render_line(&mut self, row: u32)
        requires
            old(self).wf(),
            row < 160,
        ensures
            final(self).wf(),
            final(self)@ == sp_render_line(old(self)@, row),
    {
        let dspcnt = self.io.get_priv(0);
        crate::io::ppu::render::combine::combine_line(
            &mut self.ppu.state,
            row,
            dspcnt,
            &self.io,
            &self.mmu.vram,
            &self.mmu.pram,
            &self.mmu.oam,
        );

        let ghost mid = self@;
        let ghost px0 = self.ppu.pixels@;
        let ghost lineseq = self.ppu.state.line@;
        let mut x: u32 = 0;
        while x < 240
            invariant
                self.wf(),
                x <= 240,
                row < 160,
                self.ppu.state.line@ == lineseq,
                self@ == (SysView { pixels: self.ppu.pixels@, ..mid }),
                sp_pack_row_from(self.ppu.pixels@, lineseq, row, x as int) == sp_pack_row_from(
                    px0,
                    lineseq,
                    row,
                    0,
                ),
            decreases 240 - x,
        {
            let colour = crate::io::ppu::render::colour16_rgb(self.ppu.state.line.get(x) as u16);
            let rgb = crate::io::ppu::render::colour_pack(colour);
            let off: usize = ((row * 240 + x) * 4) as usize;
            crate::mmu::bytes::write32(&mut self.ppu.pixels, off, rgb);
            x = x + 1;
            proof {
                assert(self@ =~= SysView { pixels: self.ppu.pixels@, ..mid });
            }
        }
        proof {
            assert(self@ =~= sp_render_line(old(self)@, row));
        }
    }

    /// The first dot of a frame; see [`sp_frame_start`].
    fn frame_start(&mut self)
        requires
            old(self).wf(),
        ensures
            final(self).wf(),
            final(self)@ == sp_frame_start(old(self)@),
    {
        self.update_bg2ref();
        self.update_bg3ref();
        let ds = self.io.get_priv(4);
        self.io.set_priv(4, ds & !1);
        proof {
            assert(self@ =~= sp_frame_start(old(self)@));
        }
    }

    /// The first dot of a line; see [`sp_line_start`].
    fn line_start(&mut self)
        requires
            old(self).wf(),
        ensures
            final(self).wf(),
            final(self)@ == sp_line_start(old(self)@),
    {
        let row = self.ppu.row;
        self.io.set_priv(6, row as u16);
        let ds = self.io.get_priv(4);
        let matchv = (ds >> 8) == row as u16;
        if matchv && (ds & 0x20) != 0 {
            self.io.raise_interrupt(2);
        }
        let ds3: u16 = if matchv {
            (ds | 4) & !2
        } else {
            (ds & !4) & !2
        };
        self.io.set_priv(4, ds3);
        if row < 160 {
            self.render_line(row);
        }
    }

    /// Dot 240 of a line; see [`sp_hblank`].
    fn hblank(&mut self)
        requires
            old(self).wf(),
        ensures
            final(self).wf(),
            final(self)@ == sp_hblank(old(self)@),
    {
        let ds = self.io.get_priv(4);
        let ds1 = ds | 2;
        if ds1 & 0x10 != 0 {
            self.io.raise_interrupt(1);
        }
        self.io.set_priv(4, ds1);
        if self.ppu.row < 160 {
            self.dma_trigger(Trigger::HBlank);
        }
    }

    /// The first dot past the visible rows; see [`sp_vblank`].
    fn vblank(&mut self)
        requires
            old(self).wf(),
        ensures
            final(self).wf(),
            final(self)@ == sp_vblank(old(self)@),
    {
        let ds = self.io.get_priv(4);
        let ds1 = ds | 1;
        if ds1 & 8 != 0 {
            self.io.raise_interrupt(0);
        }
        self.io.set_priv(4, ds1);
        self.dma_trigger(Trigger::VBlank);
    }

    /// One master clock of the pixel unit; the result reports a completed
    /// frame whose buffer the host may now present. See [`sp_ppu_cycle`].
    pub fn ppu_cycle(&mut self) -> (frame: bool)
        requires
            old(self).wf(),
        ensures
            final(self).wf(),
            final(self)@ == sp_ppu_cycle(old(self)@).0,
            frame == sp_ppu_cycle(old(self)@).1,
    {
        if self.ppu.delay != 0 {
            self.ppu.delay = self.ppu.delay - 1;
            return false;
        }
        self.ppu.delay = 3;

        if self.ppu.col == 0 {
            if self.ppu.row == 0 {
                self.frame_start();
            }
            self.line_start();
        }

        self.ppu.col = self.ppu.col + 1;
        if self.ppu.col == 240 {
            self.hblank();
            false
        } else if self.ppu.col == 308 {
            self.ppu.col = 0;
            self.ppu.row = self.ppu.row + 1;
            if self.ppu.row == 160 {
                self.vblank();
                false
            } else if self.ppu.row == 228 {
                self.ppu.row = 0;
                true
            } else {
                false
            }
        } else {
            false
        }
    }

    /// One master clock of the IO block: the timers tick.
    pub fn io_cycle(&mut self)
        requires
            old(self).wf(),
        ensures
            final(self).wf(),
            ({
                let t = sp_timers_cycle_from(
                    old(self)@.counts,
                    old(self)@.reg,
                    old(self)@.cycles as u16,
                    0,
                    false,
                );
                final(self)@ == (SysView {
                    counts: t.0,
                    reg: t.1,
                    cycles: vstd::wrapping::u64_specs::wrapping_add(old(self)@.cycles, 1),
                    ..old(self)@
                })
            }),
    {
        self.io.timers_cycle();
        proof {
            let t = sp_timers_cycle_from(
                old(self)@.counts,
                old(self)@.reg,
                old(self)@.cycles as u16,
                0,
                false,
            );
            assert(self@ =~= SysView {
                counts: t.0,
                reg: t.1,
                cycles: vstd::wrapping::u64_specs::wrapping_add(old(self)@.cycles, 1),
                ..old(self)@
            });
        }
    }

    /// Everything the fabric does in one master clock after the CPU's own
    /// step: the pixel unit advances one clock, then the timers tick.
    /// Reports a completed frame. The caller delivers the interrupt
    /// exception when [`Gba::irq_ready`] holds and the CPU has interrupts
    /// enabled.
    pub fn system_cycle(&mut self) -> (frame: bool)
        requires
            old(self).wf(),
        ensures
            final(self).wf(),
            ({
                let p = sp_ppu_cycle(old(self)@);
                let t = sp_timers_cycle_from(p.0.counts, p.0.reg, p.0.cycles as u16, 0, false);
                &&& final(self)@ == (SysView {
                    counts: t.0,
                    reg: t.1,
                    cycles: vstd::wrapping::u64_specs::wrapping_add(p.0.cycles, 1),
                    ..p.0
                })
                &&& frame == p.1
            }),
    {
        let frame = self.ppu_cycle();
        self.io_cycle();
        frame
    }
}

/// What the CPU observes on a 32-bit load: the aligned word, rotated right
/// by eight bits per low address bit.
pub open spec fn sp_cpu_read32(v: SysView, addr: u32) -> (SysView, u32) {
    let a = addr & !3u32;
    let r = sp_read32(v, a);
    (r.0, crate::bit_util::sp_ror(r.1, ((addr & 3) * 8) as u32))
}

/// What the CPU observes on a 16-bit load: the aligned halfword in a
/// 32-bit view, rotated right by eight bits per low address bit.
pub open spec fn sp_cpu_read16(v: SysView, addr: u32) -> (SysView, u32) {
    let a = addr & !1u32;
    let r = sp_read16(v, a);
    (r.0, crate::bit_util::sp_ror(r.1 as u32, ((addr & 1) * 8) as u32))
}

impl Gba {
    /// A CPU byte load.
    pub fn read8(&mut self, addr: u32) -> (r: u8)
        requires
            old(self).wf(),
        ensures
            final(self).wf(),
            final(self)@ == sp_read8(old(self)@, addr).0,
            r == sp_read8(old(self)@, addr).1,
    {
        self.load8(addr)
    }

    /// A CPU 16-bit load; see [`sp_cpu_read16`].
    pub fn read16(&mut self, addr: u32) -> (r: u32)
        requires
            old(self).wf(),
        ensures
            final(self).wf(),
            final(self)@ == sp_cpu_read16(old(self)@, addr).0,
            r == sp_cpu_read16(old(self)@, addr).1,
    {
        let a = addr & !1;
        let val = self.load16(a);
        crate::bit_util::ror(val as u32, (addr & 1) * 8)
    }

    /// A CPU 32-bit load; see [`sp_cpu_read32`].
    pub fn read32(&mut self, addr: u32) -> (r: u32)
        requires
            old(self).wf(),
        ensures
            final(self).wf(),
            final(self)@ == sp_cpu_read32(old(self)@, addr).0,
            r == sp_cpu_read32(old(self)@, addr).1,
    {
        let a = addr & !3;
        let val = self.load32(a);
        crate::bit_util::ror(val, (addr & 3) * 8)
    }

    /// A CPU 16-bit store: the address aligns down to the halfword.
    pub fn cpu_write16(&mut self, addr: u32, val: u16)
        requires
            old(self).wf(),
        ensures
            final(self).wf(),
            final(self)@ == sp_write16(old(self)@, addr & !1u32, val),
    {
        self.write16(addr & !1, val);
    }

    /// A CPU 32-bit store: the address aligns down to the word.
    pub fn cpu_write32(&mut self, addr: u32, val: u32)
        requires
            old(self).wf(),
        ensures
            final(self)@ == sp_write32(old(self)@, addr & !3u32, val),
            final(self).wf(),
    {
        self.write32(addr & !3, val);
    }
}

/// Unaligned rotate law, 32-bit: for a word-aligned address `a` and any
/// byte offset under 4, the CPU's load at `a + u` is the load at `a`
/// rotated right by `8 u` bits, and touches the console identically.
pub proof fn lemma_unaligned_rotate32(v: SysView, a: u32, u: u32)
    requires
        a & 3 == 0,
        u < 4,
        a + u <= u32::MAX,
    ensures
        sp_cpu_read32(v, (a + u) as u32).1 == crate::bit_util::sp_ror(
            sp_cpu_read32(v, a).1,
            (u * 8) as u32,
        ),
        sp_cpu_read32(v, (a + u) as u32).0 == sp_cpu_read32(v, a).0,
{
    assert(a & 3 == 0 && u < 4 ==> (((a + u) as u32) & !3u32) == a && (((a + u) as u32) & 3) == u
        && (a & !3u32) == a) by (bit_vector);
    assert(crate::bit_util::sp_ror(sp_read32(v, a).1, 0) == sp_read32(v, a).1);
}

/// Unaligned rotate law, 16-bit: for a halfword-aligned address `a` and
/// byte offset 0 or 1, the CPU's load at `a + u` is the load at `a`
/// rotated right by `8 u` bits.
pub proof fn lemma_unaligned_rotate16(v: SysView, a: u32, u: u32)
    requires
        a & 1 == 0,
        u < 2,
        a + u <= u32::MAX,
    ensures
        sp_cpu_read16(v, (a + u) as u32).1 == crate::bit_util::sp_ror(
            sp_cpu_read16(v, a).1,
            (u * 8) as u32,
        ),
        sp_cpu_read16(v, (a + u) as u32).0 == sp_cpu_read16(v, a).0,
{
    assert(a & 1 == 0 && u < 2 ==> (((a + u) as u32) & !1u32) == a && (((a + u) as u32) & 1) == u
        && (a & !1u32) == a) by (bit_vector);
    assert(crate::bit_util::sp_ror(sp_read16(v, a).1 as u32, 0) == sp_read16(v, a).1 as u32);
}

/// Mirroring at the bus: for a mirrored region, an offset below the
/// stride, and a mirror copy index whose address still decodes to the
/// region, the byte read from the copy equals the byte read from the
/// first copy.
pub proof fn lemma_mirrored_loads(v: SysView, r: MemoryRange, o: u32, k: u32)
    requires
        crate::mmu::gba::sp_mirror_stride(r) != 0,
        o < crate::mmu::gba::sp_mirror_stride(r),
        crate::mmu::gba::sp_region_base(r) + o + k * crate::mmu::gba::sp_mirror_stride(r)
            <= u32::MAX,
        sp_match_addr(
            (crate::mmu::gba::sp_region_base(r) + o + k * crate::mmu::gba::sp_mirror_stride(r)) as u32,
        ) == r,
        sp_match_addr((crate::mmu::gba::sp_region_base(r) + o) as u32) == r,
    ensures
        sp_read8(
            v,
            (crate::mmu::gba::sp_region_base(r) + o + k * crate::mmu::gba::sp_mirror_stride(r)) as u32,
        ) == sp_read8(v, (crate::mmu::gba::sp_region_base(r) + o) as u32),
{
    crate::mmu::gba::lemma_mirror_copies(r, o, k);
}

/// Write-1-to-clear: writing `y` to the IF register leaves exactly the
/// old bits that `y` does not name.
pub proof fn lemma_if_write_one_to_clear(v: SysView, y: u16)
    requires
        v.reg.len() == IO_REG_SIZE,
    ensures
        sp_le16(sp_io_write16(v, 0x202, y).0.reg, 0x202) == (sp_le16(v.reg, 0x202) & !y),
        sp_io_write16(v, 0x202, y).1 is None,
{
    crate::mmu::bytes::lemma_le16_store16(
        v.reg,
        0x202,
        (sp_le16(v.reg, 0x202) & !y) as u16,
    );
}

/// Read-only masks: a write to a register with a read-only mask leaves
/// the masked bits exactly as a read saw them before the write.
pub proof fn lemma_ro_mask_preserved(v: SysView, addr: u32, val: u16)
    requires
        v.reg.len() == IO_REG_SIZE,
        addr == 0x004 || addr == 0x084,
    ensures
        ({
            let m = crate::io::sp_ro_mask(addr);
            let before = crate::io::sp_io_get16(v.reg, v.counts, addr);
            let w = sp_io_write16(v, addr, val).0;
            let after = crate::io::sp_io_get16(w.reg, w.counts, addr);
            &&& after is Value
            &&& before is Value
            &&& (after->0 & m) == (before->0 & m)
        }),
{
    let m = crate::io::sp_ro_mask(addr);
    let old16 = sp_le16(v.reg, addr as int);
    let nval = ((m & old16) | (!m & val)) as u16;
    crate::mmu::bytes::lemma_le16_store16(v.reg, addr as int, nval);
    assert(((((m & old16) | (!m & val)) as u16) & m) == (old16 & m)) by (bit_vector);
    assert(forall|x: u16| #[trigger] (x & !0u16) == x) by (bit_vector);
}

/// Write-only masks: whatever a readable register holds, a read sees its
/// write-only bits as 0.
pub proof fn lemma_wo_mask_reads_zero(reg: Seq<u8>, counts: Seq<u16>, addr: u32)
    requires
        crate::io::sp_readable(addr),
    ensures
        crate::io::sp_io_get16(reg, counts, addr) is Value,
        (crate::io::sp_io_get16(reg, counts, addr)->0 & crate::io::sp_wo_mask(addr)) == 0,
{
    let m = crate::io::sp_wo_mask(addr);
    let x = crate::io::sp_io_get16(reg, counts, addr)->0;
    assert(forall|y: u16, m2: u16| #[trigger] ((y & !m2) & m2) == 0) by (bit_vector);
}

/// Timer reload on the enable edge: a control write that raises the
/// enable bit from 0 to 1 loads the timer's counter from the reload
/// register currently held in IO, whatever the counter held before.
pub proof fn lemma_timer_reload_on_enable(v: SysView, idx: u32, val: u16)
    requires
        v.reg.len() == IO_REG_SIZE,
        v.counts.len() == 4,
        idx < 4,
        crate::bit_util::sp_bit(sp_le16(v.reg, 0x102 + 4 * idx as int) as u32, 7) == 0,
        crate::bit_util::sp_bit(val as u32, 7) == 1,
    ensures
        sp_io_write16(v, (0x102 + 4 * idx) as u32, val).0.counts[idx as int] == sp_le16(
            v.reg,
            0x100 + 4 * idx as int,
        ),
{
    let addr = (0x102 + 4 * idx) as u32;
    assert(idx == 0 || idx == 1 || idx == 2 || idx == 3);
    let old16 = sp_le16(v.reg, addr as int);
    assert(((0u16 & old16) | (!0u16 & val)) == val) by (bit_vector);
    let reg1 = sp_store16(v.reg, addr as int, val);
    crate::mmu::bytes::lemma_le16_store16_other(
        v.reg,
        addr as int,
        val,
        0x100 + 4 * idx as int,
    );
}


/// An IO write never changes the size of the IO register block.
proof fn lemma_io_write16_reg_len(v: SysView, addr: u32, val: u16)
    requires
        v.reg.len() == IO_REG_SIZE,
    ensures
        sp_io_write16(v, addr, val).0.reg.len() == IO_REG_SIZE,
{
    crate::io::lemma_rw_in_bounds(addr);
}

/// A unit write never changes the size of the IO register block.
proof fn lemma_write16_unit_reg_len(v: SysView, addr: u32, val: u16)
    requires
        v.reg.len() == IO_REG_SIZE,
    ensures
        sp_write16_unit(v, addr, val).0.reg.len() == IO_REG_SIZE,
{
    let r = sp_match_addr(addr);
    let na = sp_convert_addr(r, addr);
    if r is IoRegister {
        lemma_io_write16_reg_len(v, na, val);
    }
}

/// A 32-bit unit write never changes the size of the IO register block.
proof fn lemma_write32_unit_reg_len(v: SysView, addr: u32, val: u32)
    requires
        v.reg.len() == IO_REG_SIZE,
    ensures
        sp_write32_unit(v, addr, val).reg.len() == IO_REG_SIZE,
{
    let r = sp_match_addr(addr);
    let na = sp_convert_addr(r, addr);
    if r is IoRegister {
        lemma_io_write16_reg_len(v, na, val as u16);
        lemma_io_write16_reg_len(
            sp_io_write16(v, na, val as u16).0,
            (na + 2) as u32,
            (val >> 16) as u16,
        );
    }
}

/// A copy loop never changes the size of the IO register block.
#[verifier::rlimit(100)]
proof fn lemma_copy_reg_len(
    v: SysView,
    sad: u32,
    dad: u32,
    n: u32,
    halfword: bool,
    sinc: u32,
    dinc: u32,
)
    requires
        v.reg.len() == IO_REG_SIZE,
    ensures
        sp_copy_from(v, sad, dad, n, halfword, sinc, dinc).0.reg.len() == IO_REG_SIZE,
    decreases n,
{
    if n > 0 {
        if halfword {
            let r = sp_read16(v, sad);
            lemma_write16_unit_reg_len(r.0, dad, r.1);
            lemma_copy_reg_len(
                sp_write16_unit(r.0, dad, r.1).0,
                vstd::wrapping::u32_specs::wrapping_add(sad, sinc),
                vstd::wrapping::u32_specs::wrapping_add(dad, dinc),
                (n - 1) as u32,
                halfword,
                sinc,
                dinc,
            );
        } else {
            let r = sp_read32(v, sad);
            lemma_write32_unit_reg_len(r.0, dad, r.1);
            lemma_copy_reg_len(
                sp_write32_unit(r.0, dad, r.1),
                vstd::wrapping::u32_specs::wrapping_add(sad, sinc),
                vstd::wrapping::u32_specs::wrapping_add(dad, dinc),
                (n - 1) as u32,
                halfword,
                sinc,
                dinc,
            );
        }
    }
}

/// DMA completion: after a start whose control clears the repeat bit, the
/// enable bit at the channel's control register reads 0; with the
/// interrupt bit set, IF holds the channel's DMA source.
pub proof fn lemma_dma_completion(v: SysView, ch: u32, ctrl: u16)
    requires
        ch < 4,
        v.reg.len() == IO_REG_SIZE,
        crate::bit_util::sp_bit(ctrl as u32, 9) == 0,
    ensures
        crate::bit_util::sp_bit(
            sp_le16(sp_dma_start(v, ch, ctrl).reg, 0xba + 12 * ch as int) as u32,
            15,
        ) == 0,
        crate::bit_util::sp_bit(ctrl as u32, 14) == 1 ==> crate::bit_util::sp_bit(
            sp_le16(sp_dma_start(v, ch, ctrl).reg, 0x202) as u32,
            (8 + ch) as u32,
        ) == 1,
{
    let c = v.dma.spec_ch(ch);
    let halfword = crate::bit_util::sp_bit(ctrl as u32, 10) == 0;
    let word: u32 = if halfword {
        2u32
    } else {
        4u32
    };
    let sad0: u32 = if halfword {
        c.sad & 0xfffffffe
    } else {
        c.sad & 0xfffffffc
    };
    lemma_copy_reg_len(
        v,
        sad0,
        c.dad,
        c.len,
        halfword,
        sp_dma_inc(crate::bit_util::sp_extract(ctrl as u32, 7, 2), word),
        sp_dma_inc(crate::bit_util::sp_extract(ctrl as u32, 5, 2), word),
    );
    let v1 = sp_do_copy(v, ch, ctrl);
    let caddr = 0xba + 12 * ch as int;
    let reg2 = sp_store16(v1.reg, caddr, (ctrl & 0x7fff) as u16);
    crate::mmu::bytes::lemma_le16_store16(v1.reg, caddr, (ctrl & 0x7fff) as u16);
    assert((((ctrl & 0x7fff) as u32) >> 15) & 1 == 0) by (bit_vector);
    if crate::bit_util::sp_bit(ctrl as u32, 14) == 1 {
        let old_if = sp_le16(reg2, 0x202);
        let nv = (old_if | (1u16 << ((8 + ch) as u16))) as u16;
        crate::mmu::bytes::lemma_le16_store16(reg2, 0x202, nv);
        if caddr != 0x202 {
            crate::mmu::bytes::lemma_le16_store16_other(reg2, 0x202, nv, caddr);
        }
        let c16 = ch as u16;
        assert(c16 < 4 ==> ((((old_if | (1u16 << ((8 + c16) as u16))) as u32) >> ((8
            + c16) as u32)) & 1) == 1) by (bit_vector);
    }
}


} // verus!
