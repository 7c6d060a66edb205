//! The four-channel DMA engine: trigger decisions and channel registers.
//!
//! The copy loop itself runs on the system root, which owns both the
//! channel registers and the memory they move data through.

use vstd::prelude::*;

use crate::bit_util::{bit, extract, sp_bit, sp_extract};
use crate::io::IoReg;
use crate::mmu::bytes::{sp_le16, sp_le32};

verus! {

pub const CHANNELS: usize = 4;

/// Latched per-channel transfer state.
#[derive(Clone, Copy, PartialEq, Eq, Structural, Debug)]
pub struct DmaCh {
    pub sad: u32,
    pub dad: u32,
    pub len: u32,
}

/// The DMA engine's latched channels.
#[derive(Clone, Copy, PartialEq, Eq, Structural, Debug)]
pub struct Dma {
    pub ch0: DmaCh,
    pub ch1: DmaCh,
    pub ch2: DmaCh,
    pub ch3: DmaCh,
}

/// An event that can start a waiting channel.
#[derive(Clone, Copy, PartialEq, Eq, Structural, Debug)]
pub enum Trigger {
    HBlank,
    VBlank,
    SoundFifo,
}

/// Which of a channel's two address registers is meant.
#[derive(Clone, Copy, PartialEq, Eq, Structural, Debug)]
pub enum Register {
    Source,
    Dest,
}

/// The number of significant address bits of a channel register: sources
/// are 27 bits wide on channel 0 and 28 elsewhere; destinations are 28 bits
/// wide only on channel 3.
pub open spec fn sp_addr_bits(reg: Register, ch: u32) -> u32 {
    match reg {
        Register::Source => if ch == 0 {
            27u32
        } else {
            28u32
        },
        Register::Dest => if ch == 3 {
            28u32
        } else {
            27u32
        },
    }
}

pub fn addr_bits(reg: Register, ch: u32) -> (r: u32)
    requires
        ch < 4,
    ensures
        r == sp_addr_bits(reg, ch),
{
    match reg {
        Register::Source => match ch {
            0 => 27,
            _ => 28,
        },
        Register::Dest => match ch {
            3 => 28,
            _ => 27,
        },
    }
}

/// An address register value masked to the channel's width.
pub open spec fn sp_masked_addr(reg: Register, ch: u32, val: u32) -> u32 {
    val & (((1u32 << sp_addr_bits(reg, ch)) - 1) as u32)
}

/// The latched length a count write selects: the value is masked to the
/// channel's width (16 bits on channel 3, 14 elsewhere) and 0 means the
/// maximum.
pub open spec fn sp_masked_count(ch: u32, val: u16) -> u32 {
    let max: u32 = if ch == 3 {
        0x10000
    } else {
        0x4000
    };
    let mval = (val as u32) & ((max - 1) as u32);
    if mval == 0 {
        max
    } else {
        mval
    }
}

impl DmaCh {
    pub fn set_addr(&mut self, reg: Register, channel: u32, val: u32)
        requires
            channel < 4,
        ensures
            reg is Source ==> *final(self) == (DmaCh {
                sad: sp_masked_addr(reg, channel, val),
                ..*old(self)
            }),
            reg is Dest ==> *final(self) == (DmaCh {
                dad: sp_masked_addr(reg, channel, val),
                ..*old(self)
            }),
    {
        let bits = addr_bits(reg, channel);
        proof {
            crate::bit_util::lemma_shl1_pos(bits);
        }
        let nval = val & ((1u32 << bits) - 1);
        match reg {
            Register::Source => self.sad = nval,
            Register::Dest => self.dad = nval,
        }
    }

    pub fn set_count(&mut self, val: u16, channel: u32)
        requires
            channel < 4,
        ensures
            *final(self) == (DmaCh { len: sp_masked_count(channel, val), ..*old(self) }),
    {
        let max: u32 = if channel == 3 {
            0x10000
        } else {
            0x4000
        };
        let mval = (val as u32) & (max - 1);
        self.len = if mval == 0 {
            max
        } else {
            mval
        };
    }
}

impl Dma {
    pub fn new() -> (r: Dma)
        ensures
            r == Dma::initial(),
    {
        Dma {
            ch0: DmaCh { sad: 0, dad: 0, len: 0 },
            ch1: DmaCh { sad: 0, dad: 0, len: 0 },
            ch2: DmaCh { sad: 0, dad: 0, len: 0 },
            ch3: DmaCh { sad: 0, dad: 0, len: 0 },
        }
    }

    pub open spec fn initial() -> Dma {
        Dma {
            ch0: DmaCh { sad: 0, dad: 0, len: 0 },
            ch1: DmaCh { sad: 0, dad: 0, len: 0 },
            ch2: DmaCh { sad: 0, dad: 0, len: 0 },
            ch3: DmaCh { sad: 0, dad: 0, len: 0 },
        }
    }

    pub open spec fn spec_ch(&self, ch: u32) -> DmaCh {
        if ch == 0 {
            self.ch0
        } else if ch == 1 {
            self.ch1
        } else if ch == 2 {
            self.ch2
        } else {
            self.ch3
        }
    }

    /// `self` with channel `ch` replaced.
    pub open spec fn with_ch(&self, ch: u32, v: DmaCh) -> Dma {
        if ch == 0 {
            Dma { ch0: v, ..*self }
        } else if ch == 1 {
            Dma { ch1: v, ..*self }
        } else if ch == 2 {
            Dma { ch2: v, ..*self }
        } else {
            Dma { ch3: v, ..*self }
        }
    }

    pub fn ch(&self, ch: u32) -> (r: DmaCh)
        requires
            ch < 4,
        ensures
            r == self.spec_ch(ch),
    {
        match ch {
            0 => self.ch0,
            1 => self.ch1,
            2 => self.ch2,
            _ => self.ch3,
        }
    }

    pub fn set_ch(&mut self, ch: u32, v: DmaCh)
        requires
            ch < 4,
        ensures
            *final(self) == old(self).with_ch(ch, v),
    {
        match ch {
            0 => self.ch0 = v,
            1 => self.ch1 = v,
            2 => self.ch2 = v,
            _ => self.ch3 = v,
        }
    }
}

/// A channel's latched registers after a refresh on start: length is always
/// re-read; the destination is re-read on a first start or when its control
/// mode asks for a reload; the source only on a first start.
pub open spec fn sp_refreshed_ch(
    ch: DmaCh,
    reg: Seq<u8>,
    n: u32,
    ctrl: u16,
    repeat: bool,
) -> DmaCh {
    let base = 0xb0 + 12 * n as int;
    let c1 = DmaCh { len: sp_masked_count(n, sp_le16(reg, base + 8)), ..ch };
    let c2 = if !repeat || sp_extract(ctrl as u32, 5, 2) == 3 {
        DmaCh { dad: sp_masked_addr(Register::Dest, n, sp_le32(reg, base + 4)), ..c1 }
    } else {
        c1
    };
    if !repeat {
        DmaCh { sad: sp_masked_addr(Register::Source, n, sp_le32(reg, base)), ..c2 }
    } else {
        c2
    }
}

impl IoReg {
    /// The length of the transfer that channel 3 last latched; the EEPROM
    /// uses it to tell the serial bus width apart.
    pub fn dma_length(&self) -> (r: u32)
        ensures
            r == self.dma.ch3.len,
    {
        self.dma.ch3.len
    }

    /// Latches a channel's registers for a start; see [`sp_refreshed_ch`].
    pub fn dma_refresh(&mut self, ch: u32, ctrl: u16, repeat: bool)
        requires
            old(self).wf(),
            ch < 4,
        ensures
            final(self).wf(),
            final(self).reg@ == old(self).reg@,
            final(self).timers == old(self).timers,
            final(self).dma == old(self).dma.with_ch(
                ch,
                sp_refreshed_ch(old(self).dma.spec_ch(ch), old(self).reg@, ch, ctrl, repeat),
            ),
    {
        let base = 0xb0 + 12 * ch;
        let mut c = self.dma.ch(ch);
        let cnt = self.get_priv(base + 8);
        c.set_count(cnt, ch);
        if !repeat || extract(ctrl as u32, 5, 2) == 3 {
            let dad = self.get_priv32(base + 4);
            c.set_addr(Register::Dest, ch, dad);
        }
        if !repeat {
            let sad = self.get_priv32(base);
            c.set_addr(Register::Source, ch, sad);
        }
        self.dma.set_ch(ch, c);
    }

    /// Decides whether a write to channel `ch`'s control register starts an
    /// immediate transfer: only a rising enable edge with immediate timing
    /// does. The rising edge also latches the channel registers.
    pub fn dma_updated(&mut self, ch: u32, old_v: u16, new_v: u16) -> (start: bool)
        requires
            old(self).wf(),
            ch < 4,
        ensures
            final(self).wf(),
            final(self).reg@ == old(self).reg@,
            final(self).timers == old(self).timers,
            ({
                let edge = sp_bit(old_v as u32, 15) == 0 && sp_bit(new_v as u32, 15) == 1;
                &&& (edge ==> final(self).dma == old(self).dma.with_ch(
                    ch,
                    sp_refreshed_ch(old(self).dma.spec_ch(ch), old(self).reg@, ch, new_v, false),
                ))
                &&& (!edge ==> final(self).dma == old(self).dma)
                &&& start == (edge && sp_extract(new_v as u32, 12, 2) == 0)
            }),
    {
        if bit(old_v as u32, 15) == 0 && bit(new_v as u32, 15) == 1 {
            self.dma_refresh(ch, new_v, false);
            extract(new_v as u32, 12, 2) == 0
        } else {
            false
        }
    }

    /// Whether `trigger` starts channel `ch` given its control value: the
    /// channel must be enabled, waiting on a trigger, and its timing must
    /// match; the sound FIFO timing only serves channels 1 and 2.
    pub fn dma_want_trigger(&self, ch: u32, ctrl: u16, trigger: Trigger) -> (r: bool)
        requires
            ch < 4,
        ensures
            r == sp_dma_want_trigger(ch, ctrl, trigger),
    {
        if bit(ctrl as u32, 15) == 0 || bit(ctrl as u32, 9) == 0 {
            return false;
        }
        let timing = extract(ctrl as u32, 12, 2);
        match trigger {
            Trigger::HBlank => timing == 2,
            Trigger::VBlank => timing == 1,
            Trigger::SoundFifo => timing == 3 && (ch == 1 || ch == 2),
        }
    }
}

/// Whether a trigger event starts a waiting channel; see
/// [`IoReg::dma_want_trigger`].
pub open spec fn sp_dma_want_trigger(ch: u32, ctrl: u16, trigger: Trigger) -> bool {
    if sp_bit(ctrl as u32, 15) == 0 || sp_bit(ctrl as u32, 9) == 0 {
        false
    } else {
        let timing = sp_extract(ctrl as u32, 12, 2);
        match trigger {
            Trigger::HBlank => timing == 2,
            Trigger::VBlank => timing == 1,
            Trigger::SoundFifo => timing == 3 && (ch == 1 || ch == 2),
        }
    }
}

} // verus!
