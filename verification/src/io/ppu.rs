//! The pixel processing unit: scanline timing and the frame buffer.

use vstd::prelude::*;

use self::render::RenderState;

pub mod render;

verus! {

/// Visible columns of the LCD.
pub const COLS: u32 = 240;

/// Visible rows of the LCD.
pub const ROWS: u32 = 160;

/// Bytes per packed host pixel.
pub const PIX_BYTES: usize = 4;

/// Bytes in one frame-buffer row.
pub const ROW_BYTES: usize = 960;

/// Bytes in the whole frame buffer.
pub const FRAME_BYTES: usize = 153600;

/// An empty host frame buffer: every pixel black.
pub fn empty_frame() -> (r: Vec<u8>)
    ensures
        r@ == Seq::<u8>::new(FRAME_BYTES as nat, |i: int| 0u8),
        r@.len() == FRAME_BYTES,
{
    let v: Vec<u8> = vec![0u8; FRAME_BYTES];
    proof {
        assert(v@ =~= Seq::<u8>::new(FRAME_BYTES as nat, |i: int| 0u8));
    }
    v
}

/// Scanline position and the renderer's per-line state. A dot advances
/// every fourth master clock, counted down by `delay`.
pub struct Ppu {
    pub col: u32,
    pub row: u32,
    pub delay: u8,
    pub state: RenderState,
    pub pixels: Vec<u8>,
}

impl Ppu {
    pub open spec fn wf(&self) -> bool {
        &&& self.state.wf()
        &&& self.pixels@.len() == FRAME_BYTES
        &&& self.col <= 307
        &&& self.row <= 227
    }

    pub fn new() -> (r: Ppu)
        ensures
            r.wf(),
            r.col == 0 && r.row == 0 && r.delay == 0,
            r.state.bg2ref == (render::BgRef { xref: 0, yref: 0 }),
            r.state.bg3ref == (render::BgRef { xref: 0, yref: 0 }),
            r.pixels@ == Seq::<u8>::new(FRAME_BYTES as nat, |i: int| 0u8),
    {
        Ppu { col: 0, row: 0, delay: 0, state: RenderState::new(), pixels: empty_frame() }
    }
}

} // verus!
