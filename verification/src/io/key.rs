//! Keypad input: KEYINPUT, KEYCNT and the key-match interrupt.

use vstd::prelude::*;

use crate::bit_util::{bit, sp_bit};
use crate::io::{IoReg, KEYCNT, KEYINPUT, sp_raise};
use crate::mmu::bytes::{sp_le16, sp_store16};

verus! {

/// Pressed state of the ten keys.
#[derive(Clone, Copy, PartialEq, Eq, Structural, Debug)]
pub struct KeyState {
    pub a: bool,
    pub b: bool,
    pub select: bool,
    pub start: bool,
    pub r: bool,
    pub l: bool,
    pub u: bool,
    pub d: bool,
    pub br: bool,
    pub bl: bool,
}

impl KeyState {
    /// No key pressed.
    pub fn none() -> (r: KeyState)
        ensures
            r == (KeyState {
                a: false,
                b: false,
                select: false,
                start: false,
                r: false,
                l: false,
                u: false,
                d: false,
                br: false,
                bl: false,
            }),
    {
        KeyState {
            a: false,
            b: false,
            select: false,
            start: false,
            r: false,
            l: false,
            u: false,
            d: false,
            br: false,
            bl: false,
        }
    }
}

/// The pressed-key bitmap of a key state, one bit per key.
pub open spec fn sp_key_bits(s: KeyState) -> u16 {
    (if s.a {
        1u16
    } else {
        0u16
    }) | (if s.b {
        2u16
    } else {
        0u16
    }) | (if s.select {
        4u16
    } else {
        0u16
    }) | (if s.start {
        8u16
    } else {
        0u16
    }) | (if s.r {
        16u16
    } else {
        0u16
    }) | (if s.l {
        32u16
    } else {
        0u16
    }) | (if s.u {
        64u16
    } else {
        0u16
    }) | (if s.d {
        128u16
    } else {
        0u16
    }) | (if s.br {
        256u16
    } else {
        0u16
    }) | (if s.bl {
        512u16
    } else {
        0u16
    })
}

/// The KEYINPUT register value for a key state: active-low in ten bits.
pub open spec fn sp_keyinput(s: KeyState) -> u16 {
    !sp_key_bits(s) & 0x3ff
}

/// Whether KEYCNT asks for an interrupt on this KEYINPUT value: the mask is
/// tested for any match (mode 0) or for a full match (mode 1).
pub open spec fn sp_keyintr_fires(keyinput: u16, keycnt: u16) -> bool {
    sp_bit(keycnt as u32, 14) == 1 && {
        let mask = keycnt & 1023;
        if sp_bit(keycnt as u32, 15) == 0 {
            keyinput & mask != 0
        } else {
            keyinput & mask == mask
        }
    }
}

impl IoReg {
    /// Tests the key-match condition and raises interrupt source 12 when it
    /// holds.
    pub fn check_key_intr(&mut self, keyinput: u16, keycnt: u16)
        requires
            old(self).wf(),
        ensures
            final(self).wf(),
            final(self).reg@ == if sp_keyintr_fires(keyinput, keycnt) {
                sp_raise(old(self).reg@, 12)
            } else {
                old(self).reg@
            },
            final(self).timers == old(self).timers,
            final(self).dma == old(self).dma,
    {
        if bit(keycnt as u32, 14) == 1 {
            let mask = keycnt & 1023;
            let intr = if bit(keycnt as u32, 15) == 0 {
                keyinput & mask != 0
            } else {
                keyinput & mask == mask
            };
            if intr {
                self.raise_interrupt(12);
            }
        }
    }

    /// Publishes the host's key state: KEYINPUT holds the inverted bitmap,
    /// and the key-match interrupt is tested against KEYCNT.
    pub fn set_keyreg(&mut self, state: &KeyState)
        requires
            old(self).wf(),
        ensures
            final(self).wf(),
            ({
                let reg1 = sp_store16(old(self).reg@, KEYINPUT as int, sp_keyinput(*state));
                final(self).reg@ == if sp_keyintr_fires(
                    sp_keyinput(*state),
                    sp_le16(reg1, KEYCNT as int),
                ) {
                    sp_raise(reg1, 12)
                } else {
                    reg1
                }
            }),
            final(self).timers == old(self).timers,
            final(self).dma == old(self).dma,
    {
        let vals = (if state.a {
            1u16
        } else {
            0u16
        }) | (if state.b {
            2u16
        } else {
            0u16
        }) | (if state.select {
            4u16
        } else {
            0u16
        }) | (if state.start {
            8u16
        } else {
            0u16
        }) | (if state.r {
            16u16
        } else {
            0u16
        }) | (if state.l {
            32u16
        } else {
            0u16
        }) | (if state.u {
            64u16
        } else {
            0u16
        }) | (if state.d {
            128u16
        } else {
            0u16
        }) | (if state.br {
            256u16
        } else {
            0u16
        }) | (if state.bl {
            512u16
        } else {
            0u16
        });
        let reg = !vals & 0x3ff;
        self.set_priv(KEYINPUT, reg);
        let keycnt = self.get_priv(KEYCNT);
        self.check_key_intr(reg, keycnt);
    }
}

} // verus!
