//! The object (sprite) layer: 128 OAM entries walked per scanline.

use vstd::prelude::*;

use crate::io::ppu::render::{LineBuf, TRANSPARENT, sp_affine};
use crate::mmu::bytes::sp_le16;
use crate::mmu::ram::Ram;

verus! {

broadcast use crate::bit_util::lemma_and_mask_le;

/// An object's resolved drawing parameters for one scanline.
pub ghost struct ObjParams {
    pub xval0: u32,
    pub yval0: u32,
    pub dx: u32,
    pub dy: u32,
    pub xsize: u32,
    pub ysize: u32,
    pub xarea: u32,
    pub x0: u32,
    pub is_win: bool,
    pub objwin: bool,
    pub palette_mode: u32,
    pub tbase: u32,
    pub row_inc: u32,
    pub col_inc: u32,
    pub palette: u32,
    pub prio: u32,
}

/// The pixel size of an object for a shape and size selector; invalid
/// shapes have no pixels.
pub open spec fn sp_obj_size(shape: u32, size: u32) -> (u32, u32) {
    if shape == 0 {
        if size == 0 {
            (8u32, 8u32)
        } else if size == 1 {
            (16u32, 16u32)
        } else if size == 2 {
            (32u32, 32u32)
        } else {
            (64u32, 64u32)
        }
    } else if shape == 1 {
        if size == 0 {
            (16u32, 8u32)
        } else if size == 1 {
            (32u32, 8u32)
        } else if size == 2 {
            (32u32, 16u32)
        } else {
            (64u32, 32u32)
        }
    } else if shape == 2 {
        if size == 0 {
            (8u32, 16u32)
        } else if size == 1 {
            (8u32, 32u32)
        } else if size == 2 {
            (16u32, 32u32)
        } else {
            (32u32, 64u32)
        }
    } else {
        (0u32, 0u32)
    }
}

/// Resolves OAM entry `o` for `row`, or nothing when the object is
/// disabled, off this row, or hidden by the display mode.
pub open spec fn sp_obj_params(oam: Seq<u8>, dspcnt: u16, row: u32, o: int) -> Option<ObjParams> {
    let a0 = sp_le16(oam, o * 8) as u32;
    if ((a0 >> 8) & 3) == 2 || ((a0 >> 10) & 3) == 3 {
        None
    } else {
        let a1 = sp_le16(oam, o * 8 + 2) as u32;
        let a2 = sp_le16(oam, o * 8 + 4) as u32;
        let size = sp_obj_size((a0 >> 14) & 3, (a1 >> 14) & 3);
        let xsize = size.0;
        let ysize = size.1;
        let y0 = a0 & 0xff;
        let double = ((a0 >> 8) & 3) == 3;
        let xarea: u32 = if double {
            (xsize * 2) as u32
        } else {
            xsize
        };
        let yarea: u32 = if double {
            (ysize * 2) as u32
        } else {
            ysize
        };
        let iy = (((256 + row - y0) as int) % 256) as u32;
        if iy >= yarea {
            None
        } else {
            let affine = ((a0 >> 8) & 1) == 1;
            let pm = (a0 >> 13) & 1;
            let walk: (u32, u32, u32, u32) = if affine {
                let pi = (a1 >> 9) & 0x1f;
                let ra = sp_le16(oam, 0x06 + 0x20 * pi as int) as i16 as u32;
                let rb = sp_le16(oam, 0x0e + 0x20 * pi as int) as i16 as u32;
                let rc = sp_le16(oam, 0x16 + 0x20 * pi as int) as i16 as u32;
                let rd = sp_le16(oam, 0x1e + 0x20 * pi as int) as i16 as u32;
                let xv = vstd::wrapping::u32_specs::wrapping_add(
                    vstd::wrapping::u32_specs::wrapping_sub(
                        vstd::wrapping::u32_specs::wrapping_sub(
                            (xsize << 7) as u32,
                            vstd::wrapping::u32_specs::wrapping_mul((xarea / 2) as u32, ra),
                        ),
                        vstd::wrapping::u32_specs::wrapping_mul((yarea / 2) as u32, rb),
                    ),
                    vstd::wrapping::u32_specs::wrapping_mul(iy, rb),
                );
                let yv = vstd::wrapping::u32_specs::wrapping_add(
                    vstd::wrapping::u32_specs::wrapping_sub(
                        vstd::wrapping::u32_specs::wrapping_sub(
                            (ysize << 7) as u32,
                            vstd::wrapping::u32_specs::wrapping_mul((xarea / 2) as u32, rc),
                        ),
                        vstd::wrapping::u32_specs::wrapping_mul((yarea / 2) as u32, rd),
                    ),
                    vstd::wrapping::u32_specs::wrapping_mul(iy, rd),
                );
                (xv, yv, ra, rc)
            } else {
                let xv: u32 = if ((a1 >> 12) & 1) == 0 {
                    0u32
                } else {
                    (((xsize - 1) as u32) << 8) as u32
                };
                let dxv: u32 = if ((a1 >> 12) & 1) == 0 {
                    0x100u32
                } else {
                    0xffffff00u32
                };
                let yv: u32 = if ((a1 >> 13) & 1) == 0 {
                    (iy << 8) as u32
                } else {
                    (((ysize - 1 - iy) as u32) << 8) as u32
                };
                (xv, yv, dxv, 0u32)
            };
            let is_win = ((a0 >> 10) & 3) == 2;
            let tbase = a2 & 0x3ff;
            let row_inc: u32 = if ((dspcnt as u32) >> 6) & 1 == 0 {
                32u32
            } else if pm == 0 {
                (xsize as int / 8) as u32
            } else {
                (xsize as int / 4) as u32
            };
            if ((dspcnt as u32) & 7) > 2 && tbase < 512 {
                None
            } else {
                let semitrans: u32 = if ((a0 >> 10) & 3) == 1 {
                    0x10000u32
                } else {
                    0u32
                };
                let prio = (((a2 >> 10) & 3) << 28) | ((o as u32) << 20) | semitrans;
                let palette: u32 = if pm == 0 {
                    ((a2 >> 12) & 0xf) as u32
                } else {
                    0u32
                };
                Some(
                    ObjParams {
                        xval0: walk.0,
                        yval0: walk.1,
                        dx: walk.2,
                        dy: walk.3,
                        xsize,
                        ysize,
                        xarea,
                        x0: a1 & 0x1ff,
                        is_win,
                        objwin: ((dspcnt as u32) >> 15) & 1 == 1,
                        palette_mode: pm,
                        tbase,
                        row_inc,
                        col_inc: (pm + 1) as u32,
                        palette,
                        prio,
                    },
                )
            }
        }
    }
}

/// The effect of object pixel `j` on the line and object-window buffers.
pub open spec fn sp_obj_px(
    line: Seq<u32>,
    owin: Seq<u32>,
    vram: Seq<u8>,
    pram: Seq<u8>,
    p: ObjParams,
    j: int,
) -> (Seq<u32>, Seq<u32>) {
    let xval = sp_affine(p.xval0, p.dx, j as u32);
    let yval = sp_affine(p.yval0, p.dy, j as u32);
    let sx = (p.x0 + j) % 512;
    let tx = xval >> 8;
    let ty = yval >> 8;
    if sx >= 240 || (!p.is_win && line[sx] < p.prio) || (p.is_win && owin[sx] != 0) {
        (line, owin)
    } else if tx >= p.xsize || ty >= p.ysize {
        (line, owin)
    } else {
        let t = ((p.tbase + (tx as int / 8) * p.col_inc + (ty as int / 8) * p.row_inc) as int % 1024)
            as int;
        let idx = tx as int % 8 + (ty as int % 8) * 8;
        let tile_addr = 0x10000 + t * 32;
        let pc: u8 = if p.palette_mode == 0 {
            (((vram[tile_addr + idx / 2] as u32) >> (((idx % 2) * 4) as u32)) & 0xf) as u8
        } else {
            vram[tile_addr + idx]
        };
        if pc == 0 {
            (line, owin)
        } else if p.is_win {
            if p.objwin {
                (line, owin.update(sx, 1u32))
            } else {
                (line, owin)
            }
        } else {
            (
                line.update(
                    sx,
                    (sp_le16(pram, 0x200 + p.palette * 32 + (pc as int) * 2) as u32) | p.prio,
                ),
                owin,
            )
        }
    }
}

/// The buffers after drawing object pixels `j` and beyond.
pub open spec fn sp_obj_px_from(
    line: Seq<u32>,
    owin: Seq<u32>,
    vram: Seq<u8>,
    pram: Seq<u8>,
    p: ObjParams,
    j: int,
) -> (Seq<u32>, Seq<u32>)
    decreases p.xarea - j,
{
    if j < 0 || j >= p.xarea {
        (line, owin)
    } else {
        let s = sp_obj_px(line, owin, vram, pram, p, j);
        sp_obj_px_from(s.0, s.1, vram, pram, p, j + 1)
    }
}

/// The buffers after drawing the single object `o`.
pub open spec fn sp_obj_apply(
    line: Seq<u32>,
    owin: Seq<u32>,
    vram: Seq<u8>,
    pram: Seq<u8>,
    oam: Seq<u8>,
    dspcnt: u16,
    row: u32,
    o: int,
) -> (Seq<u32>, Seq<u32>) {
    match sp_obj_params(oam, dspcnt, row, o) {
        Option::None => (line, owin),
        Option::Some(p) => sp_obj_px_from(line, owin, vram, pram, p, 0),
    }
}

/// The buffers after drawing objects `o` and beyond.
pub open spec fn sp_obj_line_from(
    line: Seq<u32>,
    owin: Seq<u32>,
    vram: Seq<u8>,
    pram: Seq<u8>,
    oam: Seq<u8>,
    dspcnt: u16,
    row: u32,
    o: int,
) -> (Seq<u32>, Seq<u32>)
    decreases 128 - o,
{
    if o < 0 || o >= 128 {
        (line, owin)
    } else {
        let s = sp_obj_apply(line, owin, vram, pram, oam, dspcnt, row, o);
        sp_obj_line_from(s.0, s.1, vram, pram, oam, dspcnt, row, o + 1)
    }
}

/// The object line and object-window mask for one scanline, starting from
/// a transparent line and an empty mask.
pub open spec fn sp_obj_line(
    vram: Seq<u8>,
    pram: Seq<u8>,
    oam: Seq<u8>,
    dspcnt: u16,
    row: u32,
) -> (Seq<u32>, Seq<u32>) {
    sp_obj_line_from(
        Seq::new(240, |i: int| TRANSPARENT),
        Seq::new(240, |i: int| 0u32),
        vram,
        pram,
        oam,
        dspcnt,
        row,
        0,
    )
}

/// Draws one OAM entry onto the line and object-window buffers.
#[verifier::rlimit(100)]
fn draw_obj(
    line: &mut LineBuf,
    owin: &mut LineBuf,
    row: u32,
    vram: &Ram,
    pram: &Ram,
    oam: &Ram,
    dspcnt: u16,
    o: u32,
)
    requires
        old(line).wf(),
        old(owin).wf(),
        vram@.len() == 0x20000,
        pram@.len() == 0x400,
        oam@.len() == 0x400,
        row < 160,
        o < 128,
    ensures
        final(line).wf(),
        final(owin).wf(),
        (final(line)@, final(owin)@) == sp_obj_apply(
            old(line)@,
            old(owin)@,
            vram@,
            pram@,
            oam@,
            dspcnt,
            row,
            o as int,
        ),
{
    let objwin = ((dspcnt as u32) >> 15) & 1 == 1;
    let layout2d = ((dspcnt as u32) >> 6) & 1 == 0;
    let mode = (dspcnt as u32) & 7;

    let a0 = oam.load16(o * 8).get() as u32;
    if (a0 >> 8) & 3 == 2 || (a0 >> 10) & 3 == 3 {
        return ;
    }
    let a1 = oam.load16(o * 8 + 2).get() as u32;
    let a2 = oam.load16(o * 8 + 4).get() as u32;

    let shape = (a0 >> 14) & 3;
    let sizesel = (a1 >> 14) & 3;
    let size: (u32, u32) = if shape == 0 {
        if sizesel == 0 {
            (8, 8)
        } else if sizesel == 1 {
            (16, 16)
        } else if sizesel == 2 {
            (32, 32)
        } else {
            (64, 64)
        }
    } else if shape == 1 {
        if sizesel == 0 {
            (16, 8)
        } else if sizesel == 1 {
            (32, 8)
        } else if sizesel == 2 {
            (32, 16)
        } else {
            (64, 32)
        }
    } else if shape == 2 {
        if sizesel == 0 {
            (8, 16)
        } else if sizesel == 1 {
            (8, 32)
        } else if sizesel == 2 {
            (16, 32)
        } else {
            (32, 64)
        }
    } else {
        (0, 0)
    };
    let xsize = size.0;
    let ysize = size.1;

    let y0 = a0 & 0xff;
    let double = (a0 >> 8) & 3 == 3;
    let xarea: u32 = if double {
        xsize * 2
    } else {
        xsize
    };
    let yarea: u32 = if double {
        ysize * 2
    } else {
        ysize
    };

    let iy = (256 + row - y0) % 256;
    if iy >= yarea {
        return ;
    }

    let affine = (a0 >> 8) & 1 == 1;
    let pm = (a0 >> 13) & 1;

    let mut xval: u32;
    let mut yval: u32;
    let dx: u32;
    let dy: u32;
    if affine {
        let pi = (a1 >> 9) & 0x1f;
        let ra = oam.load16(0x06 + 0x20 * pi).get() as i16 as u32;
        let rb = oam.load16(0x0e + 0x20 * pi).get() as i16 as u32;
        let rc = oam.load16(0x16 + 0x20 * pi).get() as i16 as u32;
        let rd = oam.load16(0x1e + 0x20 * pi).get() as i16 as u32;
        xval = (xsize << 7).wrapping_sub((xarea / 2).wrapping_mul(ra)).wrapping_sub(
            (yarea / 2).wrapping_mul(rb),
        ).wrapping_add(iy.wrapping_mul(rb));
        yval = (ysize << 7).wrapping_sub((xarea / 2).wrapping_mul(rc)).wrapping_sub(
            (yarea / 2).wrapping_mul(rd),
        ).wrapping_add(iy.wrapping_mul(rd));
        dx = ra;
        dy = rc;
    } else {
        if (a1 >> 12) & 1 == 0 {
            xval = 0;
            dx = 0x100;
        } else {
            xval = (xsize - 1) << 8;
            dx = 0xffffff00;
        }
        proof {
            assert((a0 >> 8) & 1 != 1 ==> (a0 >> 8) & 3 != 3) by (bit_vector);
        }
        yval = if (a1 >> 13) & 1 == 0 {
            iy << 8
        } else {
            (ysize - 1 - iy) << 8
        };
        dy = 0;
    }

    let is_win = (a0 >> 10) & 3 == 2;
    let tbase = a2 & 0x3ff;
    let row_inc: u32 = if layout2d {
        32
    } else if pm == 0 {
        xsize / 8
    } else {
        xsize / 4
    };
    if mode > 2 && tbase < 512 {
        return ;
    }

    let semitrans: u32 = if (a0 >> 10) & 3 == 1 {
        0x10000
    } else {
        0
    };
    let prio = (((a2 >> 10) & 3) << 28) | (o << 20) | semitrans;
    let palette: u32 = if pm == 0 {
        (a2 >> 12) & 0xf
    } else {
        0
    };
    let col_inc = pm + 1;
    let x0 = a1 & 0x1ff;

    let ghost p = sp_obj_params(oam@, dspcnt, row, o as int).unwrap();
    proof {
        assert(p == ObjParams {
            xval0: xval,
            yval0: yval,
            dx,
            dy,
            xsize,
            ysize,
            xarea,
            x0,
            is_win,
            objwin,
            palette_mode: pm,
            tbase,
            row_inc,
            col_inc,
            palette,
            prio,
        });
    }
    let ghost line_in = line@;
    let ghost owin_in = owin@;

    let mut j: u32 = 0;
    while j < xarea
        invariant
            line.wf(),
            owin.wf(),
            j <= xarea,
            vram@.len() == 0x20000,
            pram@.len() == 0x400,
            xval == sp_affine(p.xval0, p.dx, j),
            yval == sp_affine(p.yval0, p.dy, j),
            p.xarea == xarea,
            p.xsize == xsize,
            p.ysize == ysize,
            p.x0 == x0,
            p.is_win == is_win,
            p.objwin == objwin,
            p.palette_mode == pm,
            p.tbase == tbase,
            p.row_inc == row_inc,
            p.col_inc == col_inc,
            p.palette == palette,
            p.prio == prio,
            p.dx == dx,
            p.dy == dy,
            pm <= 1,
            xsize <= 64,
            ysize <= 64,
            xarea <= 128,
            col_inc <= 2,
            tbase <= 1023,
            row_inc <= 32,
            palette <= 15,
            pm == 1 ==> palette == 0,
            x0 <= 511,
            sp_obj_px_from(line@, owin@, vram@, pram@, p, j as int) == sp_obj_px_from(
                line_in,
                owin_in,
                vram@,
                pram@,
                p,
                0,
            ),
        decreases xarea - j,
    {
        let ghost lpre = line@;
        let ghost opre = owin@;
        let sx = (x0 + j) % 512;
        let tx = xval >> 8;
        let ty = yval >> 8;

        let skip1 = sx >= 240 || (!is_win && line.get(sx) < prio) || (is_win && owin.get(sx) != 0);
        if !skip1 && tx < xsize && ty < ysize {
            proof {
                vstd::arithmetic::mul::lemma_mul_upper_bound(tx as int / 8, 7, col_inc as int, 2);
                vstd::arithmetic::mul::lemma_mul_upper_bound(ty as int / 8, 7, row_inc as int, 32);
            }
            let t = (tbase + (tx / 8) * col_inc + (ty / 8) * row_inc) % 1024;
            let idx = (tx % 8) + (ty % 8) * 8;
            let tile_addr = 0x10000 + t * 32;
            let pc: u8 = if pm == 0 {
                (((vram.load8(tile_addr + idx / 2).get() as u32) >> ((idx % 2) * 4)) & 0xf) as u8
            } else {
                vram.load8(tile_addr + idx).get()
            };
            if pc != 0 {
                if is_win {
                    if objwin {
                        owin.set(sx, 1);
                    }
                } else {
                    let colour = pram.load16(0x200 + palette * 32 + (pc as u32) * 2).get();
                    line.set(sx, (colour as u32) | prio);
                }
            }
        }

        proof {
            assert((line@, owin@) == sp_obj_px(lpre, opre, vram@, pram@, p, j as int));
        }
        xval = xval.wrapping_add(dx);
        yval = yval.wrapping_add(dy);
        j = j + 1;
    }
}

/// Renders the object layer for `row`: every OAM entry is walked in index
/// order, its pixels beating already-drawn pixels only at strictly higher
/// priority; window-mode objects mark the object-window mask instead.
pub fn render_obj_line(
    line: &mut LineBuf,
    owin: &mut LineBuf,
    row: u32,
    vram: &Ram,
    pram: &Ram,
    oam: &Ram,
    dspcnt: u16,
)
    requires
        old(line).wf(),
        old(owin).wf(),
        vram@.len() == 0x20000,
        pram@.len() == 0x400,
        oam@.len() == 0x400,
        row < 160,
    ensures
        final(line).wf(),
        final(owin).wf(),
        (final(line)@, final(owin)@) == sp_obj_line(vram@, pram@, oam@, dspcnt, row),
{
    let mut x: u32 = 0;
    while x < 240
        invariant
            line.wf(),
            owin.wf(),
            x <= 240,
            forall|i: int| 0 <= i < x ==> line@[i] == TRANSPARENT,
            forall|i: int| 0 <= i < x ==> owin@[i] == 0u32,
        decreases 240 - x,
    {
        line.set(x, TRANSPARENT);
        owin.set(x, 0);
        x = x + 1;
    }
    proof {
        assert(line@ =~= Seq::new(240, |i: int| TRANSPARENT));
        assert(owin@ =~= Seq::new(240, |i: int| 0u32));
    }

    let mut o: u32 = 0;
    while o < 128
        invariant
            line.wf(),
            owin.wf(),
            o <= 128,
            vram@.len() == 0x20000,
            pram@.len() == 0x400,
            oam@.len() == 0x400,
            row < 160,
            sp_obj_line_from(line@, owin@, vram@, pram@, oam@, dspcnt, row, o as int)
                == sp_obj_line(vram@, pram@, oam@, dspcnt, row),
        decreases 128 - o,
    {
        draw_obj(line, owin, row, vram, pram, oam, dspcnt, o);
        o = o + 1;
    }
}

} // verus!
