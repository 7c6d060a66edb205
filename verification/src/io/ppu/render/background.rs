//! Background layers: text (tile) mode and rotation/scaling or bitmap mode.

use vstd::prelude::*;

use crate::io::ppu::render::{LineBuf, TRANSPARENT, sp_affine};
use crate::mmu::bytes::sp_le16;
use crate::mmu::ram::Ram;

verus! {

broadcast use crate::bit_util::lemma_and_mask_le;

/// Control of a rotation/scaling layer: a tile-mapped background carries
/// its BG control halfword, a bitmap background the DISPCNT value.
#[derive(Clone, Copy, PartialEq, Eq, Structural, Debug)]
pub enum RotScaleCtrl {
    TileMap(u16),
    Bitmap(u16),
}

impl RotScaleCtrl {
    /// A bitmap layer only exists in display modes 3 to 5.
    pub open spec fn valid(&self) -> bool {
        match *self {
            RotScaleCtrl::TileMap(_) => true,
            RotScaleCtrl::Bitmap(d) => 3 <= ((d as u32) & 7) <= 5,
        }
    }

    /// Base address of the map (tile map) or of the frame (bitmap).
    pub open spec fn sp_base_addr(&self) -> u32 {
        match *self {
            RotScaleCtrl::TileMap(ctrl) => ((((ctrl as u32) >> 8) & 0x1f) * 2048) as u32,
            RotScaleCtrl::Bitmap(dspcnt) => {
                let d = dspcnt as u32;
                if (d & 7) == 3 || ((d >> 4) & 1) == 0 {
                    0u32
                } else {
                    0xA000u32
                }
            },
        }
    }

    pub fn base_addr(&self) -> (r: u32)
        ensures
            r == self.sp_base_addr(),
            *self is TileMap ==> r <= 63488,
            *self is Bitmap ==> r <= 0xA000,
    {
        broadcast use crate::bit_util::lemma_and_mask_le;

        match *self {
            RotScaleCtrl::TileMap(ctrl) => (((ctrl as u32) >> 8) & 0x1f) * 2048,
            RotScaleCtrl::Bitmap(dspcnt) => {
                let d = dspcnt as u32;
                if (d & 7) == 3 || ((d >> 4) & 1) == 0 {
                    0
                } else {
                    0xA000
                }
            },
        }
    }

    /// Base address of the character data; bitmaps have none.
    pub open spec fn sp_tile_base_addr(&self) -> u32 {
        match *self {
            RotScaleCtrl::TileMap(ctrl) => ((((ctrl as u32) >> 2) & 3) * 16384) as u32,
            RotScaleCtrl::Bitmap(_) => 0u32,
        }
    }

    pub fn tile_base_addr(&self) -> (r: u32)
        ensures
            r == self.sp_tile_base_addr(),
            r <= 49152,
    {
        broadcast use crate::bit_util::lemma_and_mask_le;

        match *self {
            RotScaleCtrl::TileMap(ctrl) => (((ctrl as u32) >> 2) & 3) * 16384,
            RotScaleCtrl::Bitmap(_) => 0,
        }
    }

    /// Drawing priority; bitmap layers always draw behind.
    pub open spec fn sp_priority(&self) -> u32 {
        match *self {
            RotScaleCtrl::TileMap(ctrl) => (ctrl as u32) & 3,
            RotScaleCtrl::Bitmap(_) => 3u32,
        }
    }

    pub fn priority(&self) -> (r: u32)
        ensures
            r == self.sp_priority(),
            r <= 3,
    {
        broadcast use crate::bit_util::lemma_and_mask_le;

        match *self {
            RotScaleCtrl::TileMap(ctrl) => (ctrl as u32) & 3,
            RotScaleCtrl::Bitmap(_) => 3,
        }
    }

    /// Layer size in pixels.
    pub open spec fn sp_size(&self) -> (u32, u32) {
        match *self {
            RotScaleCtrl::TileMap(ctrl) => {
                let sel = ((ctrl as u32) >> 14) & 3;
                if sel == 0 {
                    (128u32, 128u32)
                } else if sel == 1 {
                    (256u32, 256u32)
                } else if sel == 2 {
                    (512u32, 512u32)
                } else {
                    (1024u32, 1024u32)
                }
            },
            RotScaleCtrl::Bitmap(dspcnt) => if ((dspcnt as u32) & 7) == 5 {
                (160u32, 128u32)
            } else {
                (240u32, 160u32)
            },
        }
    }

    pub fn size(&self) -> (r: (u32, u32))
        requires
            self.valid(),
        ensures
            r == self.sp_size(),
            128 <= r.0 <= 1024 || r.0 == 240 || r.0 == 160,
            1 <= r.0 <= 1024,
            1 <= r.1 <= 1024,
    {
        broadcast use crate::bit_util::lemma_and_mask_le;

        match *self {
            RotScaleCtrl::TileMap(ctrl) => {
                let sel = ((ctrl as u32) >> 14) & 3;
                if sel == 0 {
                    (128, 128)
                } else if sel == 1 {
                    (256, 256)
                } else if sel == 2 {
                    (512, 512)
                } else {
                    (1024, 1024)
                }
            },
            RotScaleCtrl::Bitmap(dspcnt) => {
                if ((dspcnt as u32) & 7) == 5 {
                    (160, 128)
                } else {
                    (240, 160)
                }
            },
        }
    }

    /// Whether coordinates outside the layer wrap around.
    pub open spec fn sp_wrap(&self) -> bool {
        match *self {
            RotScaleCtrl::TileMap(ctrl) => (((ctrl as u32) >> 13) & 1) == 1,
            RotScaleCtrl::Bitmap(_) => false,
        }
    }

    pub fn wrap(&self) -> (r: bool)
        ensures
            r == self.sp_wrap(),
    {
        match *self {
            RotScaleCtrl::TileMap(ctrl) => (((ctrl as u32) >> 13) & 1) == 1,
            RotScaleCtrl::Bitmap(_) => false,
        }
    }

    /// Whether pixels are palette indices (tiles and mode 4) rather than
    /// direct 15-bit colors (modes 3 and 5).
    pub open spec fn sp_is_palette(&self) -> bool {
        match *self {
            RotScaleCtrl::TileMap(_) => true,
            RotScaleCtrl::Bitmap(dspcnt) => ((dspcnt as u32) & 7) == 4,
        }
    }

    pub fn is_palette(&self) -> (r: bool)
        ensures
            r == self.sp_is_palette(),
    {
        match *self {
            RotScaleCtrl::TileMap(_) => true,
            RotScaleCtrl::Bitmap(dspcnt) => ((dspcnt as u32) & 7) == 4,
        }
    }
}

/// The packed pixel a rotation/scaling layer produces for the texture
/// coordinate accumulators `xval, yval` (28.8 fixed point).
pub open spec fn sp_rotscale_pixel(
    vram: Seq<u8>,
    pram: Seq<u8>,
    ctrl: RotScaleCtrl,
    bg: u8,
    xval: u32,
    yval: u32,
) -> u32 {
    let prio = (ctrl.sp_priority() << 28) | (((bg as u32) + 1) as u32) << 25;
    let base = ctrl.sp_base_addr();
    let tile_base = ctrl.sp_tile_base_addr();
    let xsize = ctrl.sp_size().0;
    let ysize = ctrl.sp_size().1;
    let nx = xval >> 8;
    let ny = yval >> 8;
    let ix = if ctrl.sp_wrap() {
        (nx as int % xsize as int) as u32
    } else {
        nx
    };
    let iy = if ctrl.sp_wrap() {
        (ny as int % ysize as int) as u32
    } else {
        ny
    };
    if ix < xsize && iy < ysize {
        match ctrl {
            RotScaleCtrl::TileMap(_) => {
                let tile_idx = ix as int / 8 + (iy as int / 8) * (xsize as int / 8);
                let tile = vram[base + tile_idx];
                let px_idx = ix as int % 8 + (iy as int % 8) * 8;
                let pc = vram[tile_base + (tile as int) * 64 + px_idx];
                if pc == 0 {
                    TRANSPARENT
                } else {
                    (sp_le16(pram, (pc as int) * 2) as u32) | prio
                }
            },
            RotScaleCtrl::Bitmap(_) => {
                let idx = (iy as int) * (xsize as int) + ix as int;
                if ctrl.sp_is_palette() {
                    let pc = vram[base + idx];
                    if pc == 0 {
                        TRANSPARENT
                    } else {
                        (sp_le16(pram, (pc as int) * 2) as u32) | prio
                    }
                } else {
                    (sp_le16(vram, base + idx * 2) as u32) | prio
                }
            },
        }
    } else {
        TRANSPARENT
    }
}

/// Renders one line of a rotation/scaling or bitmap background: every
/// visible column takes the layer pixel under the affine walk starting at
/// the reference latch, and the latch then advances by one line step.
pub fn render_rotscale_line(
    line: &mut LineBuf,
    vram: &Ram,
    pram: &Ram,
    bgref: &mut crate::io::ppu::render::BgRef,
    params: crate::io::ppu::render::RotScaleParams,
    ctrl: RotScaleCtrl,
    bg: u8,
)
    requires
        old(line).wf(),
        vram@.len() == 0x20000,
        pram@.len() == 0x400,
        ctrl.valid(),
        bg < 4,
    ensures
        final(line).wf(),
        forall|x: int|
            0 <= x < 240 ==> final(line)@[x] == sp_rotscale_pixel(
                vram@,
                pram@,
                ctrl,
                bg,
                sp_affine(old(bgref).xref, params.a, x as u32),
                sp_affine(old(bgref).yref, params.c, x as u32),
            ),
        final(bgref).xref == vstd::wrapping::u32_specs::wrapping_add(old(bgref).xref, params.b),
        final(bgref).yref == vstd::wrapping::u32_specs::wrapping_add(old(bgref).yref, params.d),
{
    broadcast use crate::bit_util::lemma_and_mask_le;

    let prio = (ctrl.priority() << 28) | (((bg as u32) + 1) << 25);
    let base = ctrl.base_addr();
    let tile_base = ctrl.tile_base_addr();
    let size = ctrl.size();
    let xsize = size.0;
    let ysize = size.1;
    let is_palette = ctrl.is_palette();
    let wrap = ctrl.wrap();

    let mut xval = bgref.xref;
    let mut yval = bgref.yref;
    let mut x: u32 = 0;
    while x < 240
        invariant
            line.wf(),
            x <= 240,
            vram@.len() == 0x20000,
            pram@.len() == 0x400,
            ctrl.valid(),
            bg < 4,
            prio == (ctrl.sp_priority() << 28) | (((bg as u32) + 1) as u32) << 25,
            base == ctrl.sp_base_addr(),
            tile_base == ctrl.sp_tile_base_addr(),
            xsize == ctrl.sp_size().0,
            ysize == ctrl.sp_size().1,
            1 <= xsize <= 1024,
            1 <= ysize <= 1024,
            ctrl is TileMap ==> base <= 63488,
            ctrl is Bitmap ==> base <= 0xA000,
            ctrl is Bitmap ==> xsize <= 240 && ysize <= 160,
            tile_base <= 49152,
            is_palette == ctrl.sp_is_palette(),
            wrap == ctrl.sp_wrap(),
            xval == sp_affine(old(bgref).xref, params.a, x),
            yval == sp_affine(old(bgref).yref, params.c, x),
            bgref == old(bgref),
            forall|i: int|
                0 <= i < x ==> line@[i] == sp_rotscale_pixel(
                    vram@,
                    pram@,
                    ctrl,
                    bg,
                    sp_affine(old(bgref).xref, params.a, i as u32),
                    sp_affine(old(bgref).yref, params.c, i as u32),
                ),
        decreases 240 - x,
    {
        let nx = xval >> 8;
        let ny = yval >> 8;
        let ix = if wrap {
            nx % xsize
        } else {
            nx
        };
        let iy = if wrap {
            ny % ysize
        } else {
            ny
        };

        let colour: u32 = if ix < xsize && iy < ysize {
            match ctrl {
                RotScaleCtrl::TileMap(_) => {
                    proof {
                        vstd::arithmetic::mul::lemma_mul_upper_bound(
                            iy as int / 8,
                            127,
                            xsize as int / 8,
                            128,
                        );
                    }
                    let tile_idx = (ix / 8) + (iy / 8) * (xsize / 8);
                    let tile = vram.load8(base + tile_idx).get() as u32;
                    let px_idx = (ix % 8) + (iy % 8) * 8;
                    let pc = vram.load8(tile_base + tile * 64 + px_idx).get();
                    if pc == 0 {
                        TRANSPARENT
                    } else {
                        (pram.load16((pc as u32) * 2).get() as u32) | prio
                    }
                },
                RotScaleCtrl::Bitmap(_) => {
                    proof {
                        vstd::arithmetic::mul::lemma_mul_upper_bound(
                            iy as int,
                            159,
                            xsize as int,
                            240,
                        );
                    }
                    let idx = iy * xsize + ix;
                    if is_palette {
                        let pc = vram.load8(base + idx).get();
                        if pc == 0 {
                            TRANSPARENT
                        } else {
                            (pram.load16((pc as u32) * 2).get() as u32) | prio
                        }
                    } else {
                        (vram.load16(base + idx * 2).get() as u32) | prio
                    }
                },
            }
        } else {
            TRANSPARENT
        };

        line.set(x, colour);

        xval = xval.wrapping_add(params.a);
        yval = yval.wrapping_add(params.c);
        x = x + 1;
    }

    bgref.xref = bgref.xref.wrapping_add(params.b);
    bgref.yref = bgref.yref.wrapping_add(params.d);
}

/// The size in pixels of a text background, from its control halfword.
pub open spec fn sp_text_size(ctrl: u16) -> (u32, u32) {
    let sel = ((ctrl as u32) >> 14) & 3;
    if sel == 0 {
        (256u32, 256u32)
    } else if sel == 1 {
        (512u32, 256u32)
    } else if sel == 2 {
        (256u32, 512u32)
    } else {
        (512u32, 512u32)
    }
}

/// The packed pixel a text background produces at column `x` of row `row`.
pub open spec fn sp_text_pixel(
    vram: Seq<u8>,
    pram: Seq<u8>,
    ctrl: u16,
    xoff: u32,
    yoff: u32,
    row: u32,
    bg: u32,
    x: u32,
) -> u32 {
    let c = ctrl as u32;
    let prio = ((c & 3) << 28) | 0x08000000u32 | (bg << 25);
    let base = (((c >> 8) & 0x1f) * 2048) as u32;
    let tile_base = (((c >> 2) & 3) * 16384) as u32;
    let xsize = sp_text_size(ctrl).0;
    let ysize = sp_text_size(ctrl).1;
    let c256 = ((c >> 7) & 1) == 1;
    let nx = (((x + xoff) as u32) & ((xsize - 1) as u32)) as u32;
    let ny = (((row + yoff) as u32) & ((ysize - 1) as u32)) as u32;
    let map: int = if xsize == 256 || ysize == 256 {
        (if nx >= 256 {
            1int
        } else {
            0int
        }) + (if ny >= 256 {
            1int
        } else {
            0int
        })
    } else {
        (if nx >= 256 {
            1int
        } else {
            0int
        }) + (if ny >= 256 {
            2int
        } else {
            0int
        })
    };
    let ix = nx as int % 256;
    let iy = ny as int % 256;
    let tile_idx = ix / 8 + (iy / 8) * 32;
    let addr = base + map * 2048 + tile_idx * 2;
    let tile = sp_le16(vram, addr) as u32;
    let palette: u32 = if c256 {
        0u32
    } else {
        (tile >> 12) & 0xf
    };
    let tile_num = tile & 0x3ff;
    let tx: int = if ((tile >> 10) & 1) == 0 {
        ix % 8
    } else {
        7 - ix % 8
    };
    let ty: int = if ((tile >> 11) & 1) == 0 {
        iy % 8
    } else {
        7 - iy % 8
    };
    let px_idx = tx + ty * 8;
    let px_addr = tile_num * 64 + px_idx;
    let pc: u8 = if c256 {
        vram[tile_base + px_addr]
    } else {
        ((vram[tile_base + px_addr / 2] as u32 >> (((px_addr % 2) * 4) as u32)) & 0xf) as u8
    };
    if pc == 0 {
        TRANSPARENT
    } else {
        (sp_le16(pram, palette * 32 + (pc as int) * 2) as u32) | prio
    }
}

/// Renders one line of a text (tile) background: every visible column takes
/// the tile pixel selected by the scrolled coordinates, honoring the tile's
/// flips and palette.
pub fn render_textmode_line(
    line: &mut LineBuf,
    row: u32,
    vram: &Ram,
    pram: &Ram,
    ctrl: u16,
    xoff: u32,
    yoff: u32,
    bg: u32,
)
    requires
        old(line).wf(),
        vram@.len() == 0x20000,
        pram@.len() == 0x400,
        row < 0x1000,
        xoff < 512,
        yoff < 512,
        bg < 4,
    ensures
        final(line).wf(),
        forall|x: int|
            0 <= x < 240 ==> final(line)@[x] == sp_text_pixel(
                vram@,
                pram@,
                ctrl,
                xoff,
                yoff,
                row,
                bg,
                x as u32,
            ),
{
    broadcast use crate::bit_util::lemma_and_mask_le;

    let c = ctrl as u32;
    let prio = ((c & 3) << 28) | 0x08000000u32 | (bg << 25);
    let base = ((c >> 8) & 0x1f) * 2048;
    let tile_base = ((c >> 2) & 3) * 16384;
    let sel = (c >> 14) & 3;
    let xsize: u32 = if sel == 0 || sel == 2 {
        256
    } else {
        512
    };
    let ysize: u32 = if sel == 0 || sel == 1 {
        256
    } else {
        512
    };
    let c256 = ((c >> 7) & 1) == 1;

    let mut x: u32 = 0;
    while x < 240
        invariant
            line.wf(),
            x <= 240,
            vram@.len() == 0x20000,
            pram@.len() == 0x400,
            row < 0x1000,
            xoff < 512,
            yoff < 512,
            bg < 4,
            c == ctrl as u32,
            prio == ((c & 3) << 28) | 0x08000000u32 | (bg << 25),
            base == ((c >> 8) & 0x1f) * 2048,
            tile_base == ((c >> 2) & 3) * 16384,
            base <= 63488,
            tile_base <= 49152,
            xsize == sp_text_size(ctrl).0,
            ysize == sp_text_size(ctrl).1,
            c256 == (((c >> 7) & 1) == 1),
            forall|i: int|
                0 <= i < x ==> line@[i] == sp_text_pixel(
                    vram@,
                    pram@,
                    ctrl,
                    xoff,
                    yoff,
                    row,
                    bg,
                    i as u32,
                ),
        decreases 240 - x,
    {
        let nx = (x + xoff) & (xsize - 1);
        let ny = (row + yoff) & (ysize - 1);

        let map: u32 = if xsize == 256 || ysize == 256 {
            (if nx >= 256 {
                1u32
            } else {
                0u32
            }) + (if ny >= 256 {
                1u32
            } else {
                0u32
            })
        } else {
            (if nx >= 256 {
                1u32
            } else {
                0u32
            }) + (if ny >= 256 {
                2u32
            } else {
                0u32
            })
        };

        let ix = nx % 256;
        let iy = ny % 256;

        let tile_idx = (ix / 8) + (iy / 8) * 32;
        let addr = base + map * 2048 + tile_idx * 2;
        let tile = vram.load16(addr).get() as u32;

        let palette: u32 = if c256 {
            0
        } else {
            (tile >> 12) & 0xf
        };
        let tile_num = tile & 0x3ff;

        let tx: u32 = if ((tile >> 10) & 1) == 0 {
            ix % 8
        } else {
            7 - (ix % 8)
        };
        let ty: u32 = if ((tile >> 11) & 1) == 0 {
            iy % 8
        } else {
            7 - (iy % 8)
        };
        let px_idx = tx + ty * 8;
        let px_addr = tile_num * 64 + px_idx;

        let pc: u8 = if c256 {
            vram.load8(tile_base + px_addr).get()
        } else {
            (((vram.load8(tile_base + px_addr / 2).get() as u32) >> ((px_addr % 2) * 4)) & 0xf) as u8
        };

        let colour: u32 = if pc == 0 {
            TRANSPARENT
        } else {
            (pram.load16(palette * 32 + (pc as u32) * 2).get() as u32) | prio
        };
        line.set(x, colour);
        x = x + 1;
    }
}

} // verus!
