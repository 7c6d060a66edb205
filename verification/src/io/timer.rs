//! Four prescaled, cascadable 16-bit hardware timers.

use vstd::prelude::*;

use crate::bit_util::{bit, extract, sp_bit, sp_extract};
use crate::io::{IoReg, sp_raise};
use crate::mmu::bytes::{sp_le16, sp_le32};

verus! {

pub const TIMERS: usize = 4;

/// Timer counters and the global cycle counter they are prescaled from.
pub struct Timers {
    pub counts: Vec<u16>,
    pub cycles: u64,
}

impl Timers {
    pub open spec fn wf(&self) -> bool {
        self.counts@.len() == TIMERS
    }

    pub fn new() -> (r: Timers)
        ensures
            r.wf(),
            r.counts@ == Seq::new(TIMERS as nat, |i: int| 0u16),
            r.cycles == 0,
    {
        let v: Vec<u16> = vec![0u16; TIMERS];
        proof {
            assert(v@ =~= Seq::new(TIMERS as nat, |i: int| 0u16));
        }
        Timers { counts: v, cycles: 0 }
    }

    /// The live counter value of timer `idx`, as the bus reads it.
    pub fn get(&self, idx: u32) -> (r: u16)
        requires
            self.wf(),
            idx < 4,
        ensures
            r == self.counts@[idx as int],
    {
        self.counts[idx as usize]
    }
}

/// The prescaler mask selected by the low control bits: the timer counts
/// when the cycle counter's masked low bits are zero.
pub open spec fn sp_prescale_mask(sel: u32) -> u16 {
    if sel == 0 {
        0u16
    } else if sel == 1 {
        63u16
    } else if sel == 2 {
        255u16
    } else {
        1023u16
    }
}

/// One cycle of one timer. `ctrl` is the 32-bit pair of reload (low half)
/// and control (high half). Yields the new counter value, whether the timer
/// overflowed, and whether it requests its interrupt.
pub open spec fn sp_timer_step(count: u16, ctrl: u32, cycle: u16, cascade: bool) -> (
    u16,
    bool,
    bool,
) {
    if sp_bit(ctrl, 23) != 1 {
        (count, false, false)
    } else {
        let inc = if sp_bit(ctrl, 18) == 0 {
            cycle & sp_prescale_mask(sp_extract(ctrl, 16, 2)) == 0
        } else {
            cascade
        };
        if inc {
            let ncount = vstd::wrapping::u16_specs::wrapping_add(count, 1);
            if ncount == 0 {
                (ctrl as u16, true, sp_bit(ctrl, 22) == 1)
            } else {
                (ncount, false, false)
            }
        } else {
            (count, false, false)
        }
    }
}

/// One cycle of one timer; see [`sp_timer_step`].
pub fn timer_step(count: u16, ctrl: u32, cycle: u16, cascade: bool) -> (r: (u16, bool, bool))
    ensures
        r == sp_timer_step(count, ctrl, cycle, cascade),
{
    if bit(ctrl, 23) != 1 {
        return (count, false, false);
    }
    let inc = if bit(ctrl, 18) == 0 {
        let mask = match extract(ctrl, 16, 2) {
            0 => 0u16,
            1 => 63,
            2 => 255,
            _ => 1023,
        };
        cycle & mask == 0
    } else {
        cascade
    };
    if inc {
        let ncount = count.wrapping_add(1);
        if ncount == 0 {
            (ctrl as u16, true, bit(ctrl, 22) == 1)
        } else {
            (ncount, false, false)
        }
    } else {
        (count, false, false)
    }
}

/// The timer bank and IO block after one global cycle, processed from timer
/// `i` upward, given whether timer `i - 1` overflowed just now. Overflowing
/// timers with their interrupt bit set raise interrupt sources 3 to 6 in IF.
pub open spec fn sp_timers_cycle_from(
    counts: Seq<u16>,
    reg: Seq<u8>,
    cycle: u16,
    i: int,
    cascade: bool,
) -> (Seq<u16>, Seq<u8>)
    decreases 4 - i,
{
    if i < 0 || i >= 4 {
        (counts, reg)
    } else {
        let ctrl = sp_le32(reg, 0x100 + 4 * i);
        let step = sp_timer_step(counts[i], ctrl, cycle, cascade);
        let nreg = if step.2 {
            sp_raise(reg, (3 + i) as u8)
        } else {
            reg
        };
        sp_timers_cycle_from(counts.update(i, step.0), nreg, cycle, i + 1, step.1)
    }
}

impl IoReg {
    /// Advances every timer by one global cycle, in order 0 to 3, and steps
    /// the global cycle counter.
    pub fn timers_cycle(&mut self)
        requires
            old(self).wf(),
        ensures
            final(self).wf(),
            (final(self).timers.counts@, final(self).reg@) == sp_timers_cycle_from(
                old(self).timers.counts@,
                old(self).reg@,
                old(self).timers.cycles as u16,
                0,
                false,
            ),
            final(self).timers.cycles == vstd::wrapping::u64_specs::wrapping_add(
                old(self).timers.cycles,
                1,
            ),
            final(self).dma == old(self).dma,
    {
        let cycle: u16 = self.timers.cycles as u16;
        let mut cascade = false;
        let mut i: usize = 0;
        while i < 4
            invariant
                self.wf(),
                i <= 4,
                sp_timers_cycle_from(self.timers.counts@, self.reg@, cycle, i as int, cascade)
                    == sp_timers_cycle_from(
                    old(self).timers.counts@,
                    old(self).reg@,
                    cycle,
                    0,
                    false,
                ),
                self.timers.cycles == old(self).timers.cycles,
                self.dma == old(self).dma,
            decreases 4 - i,
        {
            let ctrl = self.get_priv32(0x100 + 4 * (i as u32));
            let step = timer_step(self.timers.counts[i], ctrl, cycle, cascade);
            self.timers.counts[i] = step.0;
            cascade = step.1;
            if step.2 {
                self.raise_interrupt(3 + (i as u8));
            }
            i = i + 1;
        }
        self.timers.cycles = self.timers.cycles.wrapping_add(1);
    }

    /// A write to timer `idx`'s control halfword: a rising enable edge loads
    /// the counter from the reload register currently held in IO.
    pub fn timers_updated(&mut self, idx: u32, old_v: u16, new_v: u16)
        requires
            old(self).wf(),
            idx < 4,
        ensures
            final(self).wf(),
            final(self).reg@ == old(self).reg@,
            final(self).dma == old(self).dma,
            final(self).timers.cycles == old(self).timers.cycles,
            final(self).timers.counts@ == sp_timers_updated(
                old(self).timers.counts@,
                old(self).reg@,
                idx,
                old_v,
                new_v,
            ),
    {
        if bit(old_v as u32, 7) == 0 && bit(new_v as u32, 7) == 1 {
            let reload = self.get_priv(0x100 + 4 * idx);
            self.timers.counts[idx as usize] = reload;
        }
    }
}

/// The timer counters after a control write: a rising enable edge reloads
/// the counter from the reload register, any other write leaves it alone.
pub open spec fn sp_timers_updated(
    counts: Seq<u16>,
    reg: Seq<u8>,
    idx: u32,
    old_v: u16,
    new_v: u16,
) -> Seq<u16> {
    if sp_bit(old_v as u32, 7) == 0 && sp_bit(new_v as u32, 7) == 1 {
        counts.update(idx as int, sp_le16(reg, 0x100 + 4 * idx as int))
    } else {
        counts
    }
}

} // verus!
