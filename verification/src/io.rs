//! The memory-mapped IO register file and the peripherals keyed off it.

use vstd::prelude::*;

use crate::mmu::bytes::{sp_le16, sp_store16};
use crate::mmu::ram::Ram;

pub mod dma;
pub mod key;
pub mod ppu;
pub mod spu;
pub mod timer;

verus! {

/// Size of the IO register block in bytes.
pub const IO_REG_SIZE: usize = 0x804;

pub const DSPCNT: u32 = 0x0;
pub const DISPSTAT: u32 = 0x4;
pub const VCOUNT: u32 = 0x6;
pub const KEYINPUT: u32 = 0x130;
pub const KEYCNT: u32 = 0x132;
pub const IE: u32 = 0x200;
pub const IF: u32 = 0x202;
pub const IME: u32 = 0x208;

/// Read/write classification of the 16-bit register holding byte `addr`:
/// 1 readable, 2 writable, 3 both, 0 neither. Below the mirrored register
/// the classification is per halfword pair; above it only the three
/// registers named by their even address exist.
pub open spec fn sp_rw_flags(addr: u32) -> u8 {
    let a = (addr / 2) * 2;
    if a < 0x210 {
        if a < 0x008 {
            if a == 0x006 {
                1u8
            } else {
                3u8
            }
        } else if a < 0x010 {
            3u8
        } else if a < 0x048 {
            2u8
        } else if a < 0x04c {
            3u8
        } else if a < 0x04e {
            2u8
        } else if a < 0x050 {
            0u8
        } else if a < 0x054 {
            3u8
        } else if a < 0x056 {
            2u8
        } else if a < 0x060 {
            0u8
        } else if a < 0x0b0 {
            // sound block
            if a == 0x066 || a == 0x06a || a == 0x06e || a == 0x076 || a == 0x07a || a == 0x07e
                || a == 0x086 || a == 0x08a || a == 0x08c || a == 0x08e {
                0u8
            } else if a < 0x0a0 {
                3u8
            } else if a < 0x0a8 {
                2u8
            } else {
                0u8
            }
        } else if a < 0x0e0 {
            // DMA block: each channel is 12 bytes, only the control reads back
            let reg = (a - 0x0b0) as u32 % 12;
            if reg == 0xa {
                3u8
            } else {
                2u8
            }
        } else if a < 0x100 {
            0u8
        } else if a < 0x110 {
            3u8
        } else if a < 0x120 {
            0u8
        } else if a < 0x12c {
            3u8
        } else if a < 0x130 {
            0u8
        } else if a == 0x130 {
            1u8
        } else if a == 0x132 || a == 0x134 {
            3u8
        } else if a == 0x140 {
            3u8
        } else if a == 0x150 || a == 0x152 || a == 0x154 || a == 0x156 || a == 0x158 {
            3u8
        } else if a == 0x200 || a == 0x202 || a == 0x204 || a == 0x208 {
            3u8
        } else {
            0u8
        }
    } else if addr == 0x300 || addr == 0x800 || addr == 0x802 {
        3u8
    } else {
        0u8
    }
}

/// Whether the 16-bit register at `addr` accepts writes.
pub open spec fn sp_writable(addr: u32) -> bool {
    sp_rw_flags(addr) == 2 || sp_rw_flags(addr) == 3
}

/// Whether the 16-bit register at `addr` answers reads.
pub open spec fn sp_readable(addr: u32) -> bool {
    sp_rw_flags(addr) == 1 || sp_rw_flags(addr) == 3
}

fn rw_flags(addr: u32) -> (r: u8)
    ensures
        r == sp_rw_flags(addr),
{
    let a = (addr / 2) * 2;
    if a < 0x210 {
        if a < 0x008 {
            if a == 0x006 {
                1
            } else {
                3
            }
        } else if a < 0x010 {
            3
        } else if a < 0x048 {
            2
        } else if a < 0x04c {
            3
        } else if a < 0x04e {
            2
        } else if a < 0x050 {
            0
        } else if a < 0x054 {
            3
        } else if a < 0x056 {
            2
        } else if a < 0x060 {
            0
        } else if a < 0x0b0 {
            if a == 0x066 || a == 0x06a || a == 0x06e || a == 0x076 || a == 0x07a || a == 0x07e
                || a == 0x086 || a == 0x08a || a == 0x08c || a == 0x08e {
                0
            } else if a < 0x0a0 {
                3
            } else if a < 0x0a8 {
                2
            } else {
                0
            }
        } else if a < 0x0e0 {
            let reg = (a - 0x0b0) % 12;
            if reg == 0xa {
                3
            } else {
                2
            }
        } else if a < 0x100 {
            0
        } else if a < 0x110 {
            3
        } else if a < 0x120 {
            0
        } else if a < 0x12c {
            3
        } else if a < 0x130 {
            0
        } else if a == 0x130 {
            1
        } else if a == 0x132 || a == 0x134 {
            3
        } else if a == 0x140 {
            3
        } else if a == 0x150 || a == 0x152 || a == 0x154 || a == 0x156 || a == 0x158 {
            3
        } else if a == 0x200 || a == 0x202 || a == 0x204 || a == 0x208 {
            3
        } else {
            0
        }
    } else if addr == 0x300 || addr == 0x800 || addr == 0x802 {
        3
    } else {
        0
    }
}

/// Every classified register leaves room for a 16-bit access in the block.
pub proof fn lemma_rw_in_bounds(addr: u32)
    ensures
        sp_rw_flags(addr) != 0 ==> addr + 2 <= IO_REG_SIZE,
{
}

/// Whether the 16-bit register at `addr` accepts writes.
pub fn writable(addr: u32) -> (r: bool)
    ensures
        r == sp_writable(addr),
{
    let f = rw_flags(addr);
    f == 2 || f == 3
}

/// Whether the 16-bit register at `addr` answers reads.
pub fn readable(addr: u32) -> (r: bool)
    ensures
        r == sp_readable(addr),
{
    let f = rw_flags(addr);
    f == 1 || f == 3
}

/// The read-only bits of the register at `addr`: writes leave them as they
/// were.
pub open spec fn sp_ro_mask(addr: u32) -> u16 {
    if addr == 0x004 {
        0x0047u16
    } else if addr == 0x084 {
        0x000fu16
    } else {
        0u16
    }
}

pub fn ro_mask(addr: u32) -> (r: u16)
    ensures
        r == sp_ro_mask(addr),
{
    match addr {
        0x004 => 0x0047,
        0x084 => 0x000f,
        _ => 0,
    }
}

/// The write-only bits of the register at `addr`: reads see them as 0.
pub open spec fn sp_wo_mask(addr: u32) -> u16 {
    if addr == 0x062 {
        0x001fu16
    } else if addr == 0x064 {
        0x87ffu16
    } else if addr == 0x068 {
        0x001fu16
    } else if addr == 0x06C {
        0x87ffu16
    } else if addr == 0x072 {
        0x00ffu16
    } else if addr == 0x074 {
        0x87ffu16
    } else if addr == 0x078 {
        0x001fu16
    } else if addr == 0x07C {
        0x8000u16
    } else if addr == 0x300 {
        0xff00u16
    } else {
        0u16
    }
}

pub fn wo_mask(addr: u32) -> (r: u16)
    ensures
        r == sp_wo_mask(addr),
{
    match addr {
        0x062 => 0x001f,
        0x064 => 0x87ff,
        0x068 => 0x001f,
        0x06C => 0x87ff,
        0x072 => 0x00ff,
        0x074 => 0x87ff,
        0x078 => 0x001f,
        0x07C => 0x8000,
        0x300 => 0xff00,
        _ => 0,
    }
}

/// The IO block with interrupt source `itr` raised in IF.
pub open spec fn sp_raise(reg: Seq<u8>, itr: u8) -> Seq<u8>
    recommends
        itr < 16,
{
    sp_store16(reg, IF as int, (sp_le16(reg, IF as int) | (1u16 << itr as u16)) as u16)
}

/// Whether IME, IE and IF agree on delivering an interrupt.
pub open spec fn sp_irq_ready(reg: Seq<u8>) -> bool {
    let ifv = sp_le16(reg, IF as int);
    &&& sp_le16(reg, IME as int) & 1 != 0
    &&& ifv != 0
    &&& ifv & sp_le16(reg, IE as int) != 0
}

/// The register block at power-on: zero but for the four sound volume
/// fields, which reset to 0x100.
pub open spec fn sp_initial_reg() -> Seq<u8> {
    let zero = Seq::<u8>::new(IO_REG_SIZE as nat, |i: int| 0u8);
    sp_store16(
        sp_store16(sp_store16(sp_store16(zero, 0x20, 0x100), 0x26, 0x100), 0x30, 0x100),
        0x36,
        0x100,
    )
}


/// What a bus read of the 16-bit register at `addr` answers: unreadable
/// halves of a readable pair read 0, lone unreadable halves read open bus,
/// timer counters read live, and write-only bits read 0.
pub open spec fn sp_io_get16(reg: Seq<u8>, counts: Seq<u16>, addr: u32) -> crate::mmu::MemoryRead<
    u16,
> {
    if !sp_readable(addr) {
        if sp_readable(addr ^ 2) {
            crate::mmu::MemoryRead::Value(0u16)
        } else {
            crate::mmu::MemoryRead::Open
        }
    } else {
        let val: u16 = if addr == 0x100 || addr == 0x104 || addr == 0x108 || addr == 0x10c {
            counts[(addr as int - 0x100) / 4]
        } else {
            sp_le16(reg, addr as int)
        };
        crate::mmu::MemoryRead::Value((val & !sp_wo_mask(addr)) as u16)
    }
}

/// The IO register file and the peripherals that live inside it.
pub struct IoReg {
    pub reg: Ram,
    pub timers: timer::Timers,
    pub dma: dma::Dma,
}

impl IoReg {
    pub open spec fn wf(&self) -> bool {
        &&& self.reg@.len() == IO_REG_SIZE
        &&& self.timers.wf()
    }

    pub fn new() -> (r: IoReg)
        ensures
            r.wf(),
            r.reg@ == sp_initial_reg(),
            r.timers.counts@ == Seq::new(4, |i: int| 0u16),
            r.timers.cycles == 0,
            r.dma == dma::Dma::initial(),
    {
        let mut reg = Ram::new(IO_REG_SIZE);
        reg.set16(0x20, 0x100);
        reg.set16(0x26, 0x100);
        reg.set16(0x30, 0x100);
        reg.set16(0x36, 0x100);
        IoReg { reg, timers: timer::Timers::new(), dma: dma::Dma::new() }
    }


    /// Answers a bus read of the 16-bit register at `addr`; see
    /// [`sp_io_get16`].
    pub fn get(&self, addr: u32) -> (r: crate::mmu::MemoryRead<u16>)
        requires
            self.wf(),
        ensures
            r == sp_io_get16(self.reg@, self.timers.counts@, addr),
    {
        if !readable(addr) {
            return if readable(addr ^ 2) {
                crate::mmu::MemoryRead::Value(0)
            } else {
                crate::mmu::MemoryRead::Open
            };
        }
        proof {
            lemma_rw_in_bounds(addr);
        }
        let val: u16 = if addr == 0x100 || addr == 0x104 || addr == 0x108 || addr == 0x10c {
            self.timers.get((addr - 0x100) / 4)
        } else {
            self.get_priv(addr)
        };
        crate::mmu::MemoryRead::Value(val & !wo_mask(addr))
    }

    /// Reads a 16-bit register directly, bypassing access control.
    pub fn get_priv(&self, addr: u32) -> (r: u16)
        requires
            self.wf(),
            addr + 2 <= IO_REG_SIZE,
        ensures
            r == sp_le16(self.reg@, addr as int),
    {
        self.reg.load16(addr).get()
    }

    /// Reads a 32-bit register pair directly, bypassing access control.
    pub fn get_priv32(&self, addr: u32) -> (r: u32)
        requires
            self.wf(),
            addr + 4 <= IO_REG_SIZE,
        ensures
            r == crate::mmu::bytes::sp_le32(self.reg@, addr as int),
    {
        self.reg.load32(addr).get()
    }

    /// Writes a 16-bit register directly, bypassing masks and callbacks.
    pub fn set_priv(&mut self, addr: u32, val: u16)
        requires
            old(self).wf(),
            addr + 2 <= IO_REG_SIZE,
        ensures
            final(self).wf(),
            final(self).reg@ == sp_store16(old(self).reg@, addr as int, val),
            final(self).timers == old(self).timers,
            final(self).dma == old(self).dma,
    {
        self.reg.set16(addr, val);
    }

    /// Sets interrupt source `itr`'s bit in IF.
    pub fn raise_interrupt(&mut self, itr: u8)
        requires
            old(self).wf(),
            itr < 16,
        ensures
            final(self).wf(),
            final(self).reg@ == sp_raise(old(self).reg@, itr),
            final(self).timers == old(self).timers,
            final(self).dma == old(self).dma,
    {
        let pif = self.get_priv(IF);
        self.set_priv(IF, pif | (1u16 << (itr as u16)));
    }

    /// Whether the interrupt controller asserts its line: IME gates a
    /// non-empty intersection of IE and IF. The CPU side must still have
    /// interrupts enabled for the exception to be taken.
    pub fn irq_ready(&self) -> (r: bool)
        requires
            self.wf(),
        ensures
            r == sp_irq_ready(self.reg@),
    {
        let ir = self.get_priv(IF);
        (self.get_priv(IME) & 1) != 0 && ir != 0 && (ir & self.get_priv(IE)) != 0
    }

    /// Clears every IF bit that is set in `val`: acknowledging an interrupt
    /// writes a 1 to its bit.
    pub fn disable_intrreq(&mut self, val: u16)
        requires
            old(self).wf(),
        ensures
            final(self).wf(),
            final(self).reg@ == sp_store16(
                old(self).reg@,
                IF as int,
                (sp_le16(old(self).reg@, IF as int) & !val) as u16,
            ),
            final(self).timers == old(self).timers,
            final(self).dma == old(self).dma,
    {
        let nv = self.get_priv(IF) & !val;
        self.set_priv(IF, nv);
    }
}

} // verus!
