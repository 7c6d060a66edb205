//! Per-region wait-state accounting, configured by the WAITCNT register.

use vstd::prelude::*;

use crate::bit_util::{bit, extract, sp_bit, sp_extract};

verus! {

/// The first-access wait count selected by a 2-bit WAITCNT field.
pub open spec fn sp_first_waits(sel: u32) -> u8 {
    if sel == 0 {
        4u8
    } else if sel == 1 {
        3u8
    } else if sel == 2 {
        2u8
    } else {
        8u8
    }
}

/// Wait counts for the three cartridge ROM windows (non-sequential and
/// sequential access) and for cartridge SRAM.
#[derive(PartialEq, Eq, Structural)]
pub struct WaitStates {
    pub rom0_n: u8,
    pub rom0_s: u8,
    pub rom1_n: u8,
    pub rom1_s: u8,
    pub rom2_n: u8,
    pub rom2_s: u8,
    pub sram: u8,
}

impl WaitStates {
    /// The configuration that a WAITCNT value selects.
    pub open spec fn from_waitcnt(w: u16) -> WaitStates {
        let first = sp_first_waits(sp_extract(w as u32, 2, 2));
        let fast = sp_bit(w as u32, 4) == 1;
        WaitStates {
            rom0_n: first,
            rom0_s: if fast {
                1u8
            } else {
                2u8
            },
            rom1_n: first,
            rom1_s: if fast {
                1u8
            } else {
                4u8
            },
            rom2_n: first,
            rom2_s: if fast {
                1u8
            } else {
                8u8
            },
            sram: sp_first_waits(sp_extract(w as u32, 0, 2)),
        }
    }

    /// All wait fields stay small, so cycle sums cannot overflow.
    pub open spec fn fields_small(&self) -> bool {
        &&& self.rom0_n <= 8 && self.rom1_n <= 8 && self.rom2_n <= 8
        &&& self.rom0_s <= 8 && self.rom1_s <= 8 && self.rom2_s <= 8
        &&& self.sram <= 8
    }

    pub fn new() -> (r: WaitStates)
        ensures
            r == WaitStates::from_waitcnt(0u16),
    {
        let mut w = WaitStates {
            rom0_n: 0,
            rom0_s: 0,
            rom1_n: 0,
            rom1_s: 0,
            rom2_n: 0,
            rom2_s: 0,
            sram: 0,
        };
        w.set_waitcnt(0);
        w
    }

    pub fn set_waitcnt(&mut self, w: u16)
        ensures
            *final(self) == WaitStates::from_waitcnt(w),
    {
        let sram_sel = extract(w as u32, 0, 2);
        let rom_sel = extract(w as u32, 2, 2);
        let fast = bit(w as u32, 4) == 1;

        self.sram = match sram_sel {
            0 => 4,
            1 => 3,
            2 => 2,
            _ => 8,
        };
        let first: u8 = match rom_sel {
            0 => 4,
            1 => 3,
            2 => 2,
            _ => 8,
        };
        self.rom0_n = first;
        self.rom1_n = first;
        self.rom2_n = first;
        self.rom0_s = if fast {
            1
        } else {
            2
        };
        self.rom1_s = if fast {
            1
        } else {
            4
        };
        self.rom2_s = if fast {
            1
        } else {
            8
        };
    }

    /// Access cycles for one bus transfer to the high nibble `range`: the
    /// access itself plus the configured waits. Regions with no configurable
    /// waits take a single cycle.
    pub open spec fn sp_waits_range(&self, range: u32, seq: bool) -> u8
        recommends
            self.fields_small(),
    {
        if range == 0x8 || range == 0x9 {
            (1 + if seq {
                self.rom0_s
            } else {
                self.rom0_n
            }) as u8
        } else if range == 0xA || range == 0xB {
            (1 + if seq {
                self.rom1_s
            } else {
                self.rom1_n
            }) as u8
        } else if range == 0xC || range == 0xD {
            (1 + if seq {
                self.rom2_s
            } else {
                self.rom2_n
            }) as u8
        } else if range == 0xE || range == 0xF {
            (1 + self.sram) as u8
        } else {
            1u8
        }
    }

    fn get_waits_range(&self, range: u32, seq: bool) -> (r: u8)
        requires
            self.fields_small(),
        ensures
            r == self.sp_waits_range(range, seq),
    {
        match range {
            0x8 | 0x9 => 1 + if seq {
                self.rom0_s
            } else {
                self.rom0_n
            },
            0xA | 0xB => 1 + if seq {
                self.rom1_s
            } else {
                self.rom1_n
            },
            0xC | 0xD => 1 + if seq {
                self.rom2_s
            } else {
                self.rom2_n
            },
            0xE | 0xF => 1 + self.sram,
            _ => 1,
        }
    }

    /// Cycles the CPU must budget for an access of `width` bytes at `addr`:
    /// a 32-bit gamepak access is two 16-bit transfers, the second sequential.
    pub fn get_waitstates(&self, addr: u32, width: u8, seq: bool) -> (r: u8)
        requires
            self.fields_small(),
        ensures
            r == self.sp_waits_range(sp_extract(addr, 24, 4), seq) + if width == 4 {
                self.sp_waits_range(sp_extract(addr, 24, 4), true)
            } else {
                0u8
            },
    {
        let range = extract(addr, 24, 4);
        self.get_waits_range(range, seq) + if width == 4 {
            self.get_waits_range(range, true)
        } else {
            0
        }
    }
}

} // verus!
