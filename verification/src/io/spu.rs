//! A stub sample producer: a square wave at 32 Hz of the 32768 Hz stream.
//!
//! The host audio callback turns the returned steps into samples; the core
//! only decides when an edge of the square wave falls.

use vstd::prelude::*;

verus! {

/// Position within the 1024-sample square-wave period.
pub struct Spu {
    pub idx: i32,
}

impl Spu {
    pub fn new() -> (r: Spu)
        ensures
            r.idx == 0,
    {
        Spu { idx: 0 }
    }

    /// One sample tick: returns `1` when the high edge of the wave starts,
    /// `-1` when the low edge starts, and `0` otherwise.
    pub fn cycle(&mut self) -> (r: i8)
        requires
            0 <= old(self).idx < 1024,
        ensures
            0 <= final(self).idx < 1024,
            final(self).idx == (old(self).idx + 1) % 1024,
            r == if old(self).idx == 0 {
                1i8
            } else if old(self).idx == 512 {
                -1i8
            } else {
                0i8
            },
    {
        let r: i8 = if self.idx == 0 {
            1
        } else if self.idx == 512 {
            -1
        } else {
            0
        };
        self.idx = (self.idx + 1) % 1024;
        r
    }
}

} // verus!
