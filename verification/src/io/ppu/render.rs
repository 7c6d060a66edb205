//! Scanline rendering: line buffers, packed pixels, windows and colors.
//!
//! A line-buffer entry packs `priority:4 | kind:4 | semitrans:1 | oam:8 |
//! color:15` so that the smallest value wins the pixel.

use vstd::prelude::*;

use crate::bit_util::{sign_extend, sp_sign_extend};

pub mod background;
pub mod combine;
pub mod object;

verus! {

/// A packed line-buffer value no real layer produces: transparent.
pub const TRANSPARENT: u32 = 0xf0000000;

/// A line buffer of one packed value per visible column.
pub struct LineBuf {
    pub buf: Vec<u32>,
}

impl LineBuf {
    pub open spec fn view(&self) -> Seq<u32> {
        self.buf@
    }

    pub open spec fn wf(&self) -> bool {
        self.buf@.len() == 240
    }

    pub fn new() -> (r: LineBuf)
        ensures
            r.wf(),
            r@ == Seq::<u32>::new(240, |i: int| 0u32),
    {
        let v: Vec<u32> = vec![0u32; 240];
        proof {
            assert(v@ =~= Seq::<u32>::new(240, |i: int| 0u32));
        }
        LineBuf { buf: v }
    }

    pub fn get(&self, x: u32) -> (r: u32)
        requires
            self.wf(),
            x < 240,
        ensures
            r == self@[x as int],
    {
        self.buf[x as usize]
    }

    pub fn set(&mut self, x: u32, v: u32)
        requires
            old(self).wf(),
            x < 240,
        ensures
            final(self).wf(),
            final(self)@ == old(self)@.update(x as int, v),
    {
        self.buf[x as usize] = v;
    }
}

/// A background reference point latch: a signed 28.8 fixed-point pair.
#[derive(Clone, Copy, PartialEq, Eq, Structural, Debug)]
pub struct BgRef {
    pub xref: u32,
    pub yref: u32,
}

impl BgRef {
    /// Builds the latch from the four IO register halves, sign-extending
    /// each 28-bit coordinate.
    pub fn new(xl: u16, xh: u16, yl: u16, yh: u16) -> (r: BgRef)
        ensures
            r == sp_bgref(xl, xh, yl, yh),
    {
        BgRef {
            xref: sign_extend((xl as u32) | ((xh as u32) << 16), 28),
            yref: sign_extend((yl as u32) | ((yh as u32) << 16), 28),
        }
    }
}

/// The latch value selected by the four IO register halves.
pub open spec fn sp_bgref(xl: u16, xh: u16, yl: u16, yh: u16) -> BgRef {
    BgRef {
        xref: sp_sign_extend((xl as u32) | ((xh as u32) << 16), 28),
        yref: sp_sign_extend((yl as u32) | ((yh as u32) << 16), 28),
    }
}

/// Affine parameters, sign-extended from 16.8 fixed point to 32 bits.
#[derive(Clone, Copy, PartialEq, Eq, Structural, Debug)]
pub struct RotScaleParams {
    pub a: u32,
    pub b: u32,
    pub c: u32,
    pub d: u32,
}

impl RotScaleParams {
    pub fn new(a: u16, b: u16, c: u16, d: u16) -> (r: RotScaleParams)
        ensures
            r == sp_rotscale_params(a, b, c, d),
    {
        RotScaleParams {
            a: a as i16 as u32,
            b: b as i16 as u32,
            c: c as i16 as u32,
            d: d as i16 as u32,
        }
    }
}

/// The sign-extended affine parameters a register quadruple selects.
pub open spec fn sp_rotscale_params(a: u16, b: u16, c: u16, d: u16) -> RotScaleParams {
    RotScaleParams { a: a as i16 as u32, b: b as i16 as u32, c: c as i16 as u32, d: d as i16 as u32 }
}


/// Mathematical view of the per-line render state.
#[verifier::ext_equal]
pub ghost struct RsView {
    pub l0: Seq<u32>,
    pub l1: Seq<u32>,
    pub l2: Seq<u32>,
    pub l3: Seq<u32>,
    pub lo: Seq<u32>,
    pub low: Seq<u32>,
    pub line: Seq<u32>,
    pub bg2ref: BgRef,
    pub bg3ref: BgRef,
}

/// Per-line render state: one buffer per layer, the object-window mask,
/// the combined line, and the two affine reference latches.
pub struct RenderState {
    pub line0: LineBuf,
    pub line1: LineBuf,
    pub line2: LineBuf,
    pub line3: LineBuf,
    pub lineo: LineBuf,
    pub line_objwindow: LineBuf,
    pub line: LineBuf,
    pub bg2ref: BgRef,
    pub bg3ref: BgRef,
}

impl RenderState {
    pub open spec fn view(&self) -> RsView {
        RsView {
            l0: self.line0@,
            l1: self.line1@,
            l2: self.line2@,
            l3: self.line3@,
            lo: self.lineo@,
            low: self.line_objwindow@,
            line: self.line@,
            bg2ref: self.bg2ref,
            bg3ref: self.bg3ref,
        }
    }

    pub open spec fn wf(&self) -> bool {
        &&& self.line0.wf()
        &&& self.line1.wf()
        &&& self.line2.wf()
        &&& self.line3.wf()
        &&& self.lineo.wf()
        &&& self.line_objwindow.wf()
        &&& self.line.wf()
    }

    pub fn new() -> (r: RenderState)
        ensures
            r.wf(),
            r.bg2ref == (BgRef { xref: 0, yref: 0 }),
            r.bg3ref == (BgRef { xref: 0, yref: 0 }),
    {
        RenderState {
            line0: LineBuf::new(),
            line1: LineBuf::new(),
            line2: LineBuf::new(),
            line3: LineBuf::new(),
            lineo: LineBuf::new(),
            line_objwindow: LineBuf::new(),
            line: LineBuf::new(),
            bg2ref: BgRef { xref: 0, yref: 0 },
            bg3ref: BgRef { xref: 0, yref: 0 },
        }
    }
}

/// A 15-bit color expanded to 8-bit red, green and blue channels.
pub open spec fn sp_colour16_rgb(colour: u16) -> (u8, u8, u8) {
    (
        (((colour as u32) & 0x1f) << 3) as u8,
        ((((colour as u32) >> 5) & 0x1f) << 3) as u8,
        ((((colour as u32) >> 10) & 0x1f) << 3) as u8,
    )
}

/// Expands a 15-bit color to 8-bit red, green and blue channels: each 5-bit
/// channel is shifted up by three bits.
pub fn colour16_rgb(colour: u16) -> (r: (u8, u8, u8))
    ensures
        r == sp_colour16_rgb(colour),
{
    broadcast use crate::bit_util::lemma_and_mask_le;

    let c32 = colour as u32;
    (((c32 & 0x1f) << 3) as u8, (((c32 >> 5) & 0x1f) << 3) as u8, (((c32 >> 10) & 0x1f) << 3) as u8)
}

/// Packs 8-bit red, green and blue into a host `0x00RRGGBB` word.
pub open spec fn sp_colour_pack(c: (u8, u8, u8)) -> u32 {
    ((c.0 as u32) << 16) | ((c.1 as u32) << 8) | (c.2 as u32)
}

/// Packs 8-bit red, green and blue into a host `0x00RRGGBB` word.
pub fn colour_pack(colour: (u8, u8, u8)) -> (r: u32)
    ensures
        r == sp_colour_pack(colour),
{
    ((colour.0 as u32) << 16) | ((colour.1 as u32) << 8) | (colour.2 as u32)
}

/// Whether `row` lies in a window's vertical range `(y1 << 8) | y2`: the
/// degenerate equal pair at 0xE8 or above spans everything; otherwise the
/// range is `[y1, y2)`, wrapping around when `y1 > y2`.
pub open spec fn sp_in_win_vert(winv: u16, row: u32) -> bool {
    let y1 = (winv >> 8) as u32;
    let y2 = (winv & 0xff) as u32;
    (y1 == y2 && y1 >= 0xe8) || if y1 <= y2 {
        row >= y1 && row < y2
    } else {
        row >= y1 || row < y2
    }
}

/// Whether `row` lies in the window's vertical range; see [`sp_in_win_vert`].
pub fn in_win_vert(winv: u16, row: u32) -> (r: bool)
    ensures
        r == sp_in_win_vert(winv, row),
{
    let y1 = (winv >> 8) as u32;
    let y2 = (winv & 0xff) as u32;
    (y1 == y2 && y1 >= 0xe8) || if y1 <= y2 {
        row >= y1 && row < y2
    } else {
        row >= y1 || row < y2
    }
}

/// Whether `col` lies in a window's horizontal range `(x1 << 8) | x2`:
/// the range is `[x1, x2)`, wrapping around when `x1 > x2`.
pub open spec fn sp_in_win_hori(winh: u16, col: u32) -> bool {
    let x1 = (winh >> 8) as u32;
    let x2 = (winh & 0xff) as u32;
    if x1 <= x2 {
        col >= x1 && col < x2
    } else {
        col >= x1 || col < x2
    }
}

/// Whether `col` lies in the window's horizontal range; see
/// [`sp_in_win_hori`].
pub fn in_win_hori(winh: u16, col: u32) -> (r: bool)
    ensures
        r == sp_in_win_hori(winh, col),
{
    let x1 = (winh >> 8) as u32;
    let x2 = (winh & 0xff) as u32;
    if x1 <= x2 {
        col >= x1 && col < x2
    } else {
        col >= x1 || col < x2
    }
}

/// One step of an affine accumulator: the reference plus `n` strides, in
/// wrapping 32-bit arithmetic.
pub open spec fn sp_affine(xref: u32, stride: u32, n: u32) -> u32
    decreases n,
{
    if n == 0 {
        xref
    } else {
        vstd::wrapping::u32_specs::wrapping_add(sp_affine(xref, stride, (n - 1) as u32), stride)
    }
}

} // verus!
