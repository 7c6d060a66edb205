//! Compositing: window masks, layer priority, and color special effects.

use vstd::prelude::*;

use crate::io::IoReg;
use crate::io::ppu::render::{
    LineBuf, RenderState, RsView, TRANSPARENT, in_win_vert, sp_affine, sp_in_win_hori,
    sp_in_win_vert, sp_rotscale_params,
};
use crate::io::ppu::render::background::{
    RotScaleCtrl, render_rotscale_line, render_textmode_line, sp_rotscale_pixel, sp_text_pixel,
};
use crate::io::ppu::render::object::{render_obj_line, sp_obj_line};
use crate::mmu::bytes::sp_le16;
use crate::mmu::ram::Ram;

verus! {

broadcast use crate::bit_util::lemma_and_mask_le;

/// The semi-transparency flag of a packed object pixel.
pub const SEMITRANS: u32 = 0x10000;

/// A packed 15-bit color split into its three 5-bit channels.
pub open spec fn sp_colour_unpack(c: u16) -> (u8, u8, u8) {
    (
        ((c as u32) & 0x1f) as u8,
        (((c as u32) >> 5) & 0x1f) as u8,
        (((c as u32) >> 10) & 0x1f) as u8,
    )
}

/// Splits a packed 15-bit color into its three 5-bit channels.
pub fn colour_unpack(c: u16) -> (r: (u8, u8, u8))
    ensures
        r == sp_colour_unpack(c),
        r.0 <= 31 && r.1 <= 31 && r.2 <= 31,
{
    broadcast use crate::bit_util::lemma_and_mask_le;

    let c = c as u32;
    ((c & 0x1f) as u8, ((c >> 5) & 0x1f) as u8, ((c >> 10) & 0x1f) as u8)
}

/// Three 5-bit channels packed back into a 15-bit color.
pub open spec fn sp_colour_repack(c: (u8, u8, u8)) -> u16 {
    ((c.0 as u16) | ((c.1 as u16) << 5) | ((c.2 as u16) << 10)) as u16
}

/// Packs three 5-bit channels back into a 15-bit color.
pub fn colour_repack(c: (u8, u8, u8)) -> (r: u16)
    ensures
        r == sp_colour_repack(c),
{
    (c.0 as u16) | ((c.1 as u16) << 5) | ((c.2 as u16) << 10)
}

/// One channel of an alpha blend: the weighted sum of both layers' channels
/// in sixteenths, saturated at 31.
pub open spec fn sp_alpha_blend_component(eva: u32, evb: u32, c1: u8, c2: u8) -> u8 {
    let v = ((eva * c1 + evb * c2) as int) / 16;
    if v >= 31 {
        31u8
    } else {
        v as u8
    }
}

/// One channel of an alpha blend; see [`sp_alpha_blend_component`].
pub fn alpha_blend_component(eva: u32, evb: u32, c1: u8, c2: u8) -> (r: u8)
    requires
        eva <= 31,
        evb <= 31,
        c1 <= 31,
        c2 <= 31,
    ensures
        r == sp_alpha_blend_component(eva, evb, c1, c2),
        r <= 31,
{
    proof {
        vstd::arithmetic::mul::lemma_mul_upper_bound(eva as int, 31, c1 as int, 31);
        vstd::arithmetic::mul::lemma_mul_upper_bound(evb as int, 31, c2 as int, 31);
    }
    let v = (eva * (c1 as u32) + evb * (c2 as u32)) / 16;
    if v >= 31 {
        31
    } else {
        v as u8
    }
}

/// An alpha blend of two 15-bit colors, channel by channel, with the
/// weights of the BLDALPHA register.
pub open spec fn sp_alpha_blend(bldalpha: u16, c1: u32, c2: u32) -> u32 {
    let eva = (bldalpha as u32) & 0x1f;
    let evb = ((bldalpha as u32) >> 8) & 0x1f;
    let c1rgb = sp_colour_unpack(c1 as u16);
    let c2rgb = sp_colour_unpack(c2 as u16);
    sp_colour_repack(
        (
            sp_alpha_blend_component(eva, evb, c1rgb.0, c2rgb.0),
            sp_alpha_blend_component(eva, evb, c1rgb.1, c2rgb.1),
            sp_alpha_blend_component(eva, evb, c1rgb.2, c2rgb.2),
        ),
    ) as u32
}

/// Alpha-blends two 15-bit colors; see [`sp_alpha_blend`].
pub fn alpha_blend(bldalpha: u16, c1: u32, c2: u32) -> (r: u32)
    ensures
        r == sp_alpha_blend(bldalpha, c1, c2),
{
    broadcast use crate::bit_util::lemma_and_mask_le;

    let eva = (bldalpha as u32) & 0x1f;
    let evb = ((bldalpha as u32) >> 8) & 0x1f;
    let c1rgb = colour_unpack(c1 as u16);
    let c2rgb = colour_unpack(c2 as u16);
    colour_repack(
        (
            alpha_blend_component(eva, evb, c1rgb.0, c2rgb.0),
            alpha_blend_component(eva, evb, c1rgb.1, c2rgb.1),
            alpha_blend_component(eva, evb, c1rgb.2, c2rgb.2),
        ),
    ) as u32
}

/// One channel moved toward white by `evy` sixteenths of its headroom.
pub open spec fn sp_brighten_component(evy: u32, c: u8) -> u8 {
    let v = c + ((evy * (31 - c)) as int) / 16;
    if v >= 31 {
        31u8
    } else {
        v as u8
    }
}

/// One channel moved toward white; see [`sp_brighten_component`].
pub fn brighten_component(evy: u32, c: u8) -> (r: u8)
    requires
        evy <= 31,
        c <= 31,
    ensures
        r == sp_brighten_component(evy, c),
        r <= 31,
{
    proof {
        vstd::arithmetic::mul::lemma_mul_upper_bound(evy as int, 31, 31 - c as int, 31);
    }
    let v = (c as u32) + (evy * (31 - (c as u32))) / 16;
    if v >= 31 {
        31
    } else {
        v as u8
    }
}

/// One channel moved toward black by `evy` sixteenths of its value.
pub open spec fn sp_darken_component(evy: u32, c: u8) -> u8 {
    let d = ((evy * c) as int) / 16;
    if d >= c {
        0u8
    } else {
        (c - d) as u8
    }
}

/// One channel moved toward black; see [`sp_darken_component`].
pub fn darken_component(evy: u32, c: u8) -> (r: u8)
    requires
        evy <= 31,
        c <= 31,
    ensures
        r == sp_darken_component(evy, c),
        r <= 31,
{
    proof {
        vstd::arithmetic::mul::lemma_mul_upper_bound(evy as int, 31, c as int, 31);
    }
    let d = (evy * (c as u32)) / 16;
    if d >= c as u32 {
        0
    } else {
        (c as u32 - d) as u8
    }
}

/// A 15-bit color brightened by the BLDY register's ratio.
pub open spec fn sp_brighten(bldy: u16, c: u32) -> u32 {
    let evy = (bldy as u32) & 0x1f;
    let rgb = sp_colour_unpack(c as u16);
    sp_colour_repack(
        (
            sp_brighten_component(evy, rgb.0),
            sp_brighten_component(evy, rgb.1),
            sp_brighten_component(evy, rgb.2),
        ),
    ) as u32
}

/// Brightens a 15-bit color; see [`sp_brighten`].
pub fn brighten(bldy: u16, c: u32) -> (r: u32)
    ensures
        r == sp_brighten(bldy, c),
{
    broadcast use crate::bit_util::lemma_and_mask_le;

    let evy = (bldy as u32) & 0x1f;
    let rgb = colour_unpack(c as u16);
    colour_repack(
        (
            brighten_component(evy, rgb.0),
            brighten_component(evy, rgb.1),
            brighten_component(evy, rgb.2),
        ),
    ) as u32
}

/// A 15-bit color darkened by the BLDY register's ratio.
pub open spec fn sp_darken(bldy: u16, c: u32) -> u32 {
    let evy = (bldy as u32) & 0x1f;
    let rgb = sp_colour_unpack(c as u16);
    sp_colour_repack(
        (
            sp_darken_component(evy, rgb.0),
            sp_darken_component(evy, rgb.1),
            sp_darken_component(evy, rgb.2),
        ),
    ) as u32
}

/// Darkens a 15-bit color; see [`sp_darken`].
pub fn darken(bldy: u16, c: u32) -> (r: u32)
    ensures
        r == sp_darken(bldy, c),
{
    broadcast use crate::bit_util::lemma_and_mask_le;

    let evy = (bldy as u32) & 0x1f;
    let rgb = colour_unpack(c as u16);
    colour_repack(
        (darken_component(evy, rgb.0), darken_component(evy, rgb.1), darken_component(evy, rgb.2)),
    ) as u32
}

/// The color effect applied to an ordinary first pixel: the effect runs
/// only when the first layer is a blend target, and alpha blending also
/// needs the second layer targeted.
pub open spec fn sp_blend(
    effect: u32,
    bldcnt: u16,
    bldalpha: u16,
    bldy: u16,
    f: u32,
    fc: u32,
    s: u32,
    sc: u32,
) -> u32 {
    if ((bldcnt as u32) >> f) & 1 == 1 {
        if effect == 1 {
            if ((bldcnt as u32) >> (8 + s) as u32) & 1 == 1 {
                sp_alpha_blend(bldalpha, fc, sc)
            } else {
                fc
            }
        } else if effect == 2 {
            sp_brighten(bldy, fc)
        } else if effect == 3 {
            sp_darken(bldy, fc)
        } else {
            fc
        }
    } else {
        fc
    }
}

/// The color effect applied to an ordinary first pixel; see [`sp_blend`].
pub fn blend(
    effect: u32,
    bldcnt: u16,
    bldalpha: u16,
    bldy: u16,
    f: u32,
    fc: u32,
    s: u32,
    sc: u32,
) -> (r: u32)
    requires
        effect <= 3,
        f <= 5,
        s <= 16,
    ensures
        r == sp_blend(effect, bldcnt, bldalpha, bldy, f, fc, s, sc),
{
    if ((bldcnt as u32) >> f) & 1 == 1 {
        match effect {
            1 => {
                if ((bldcnt as u32) >> (8 + s)) & 1 == 1 {
                    alpha_blend(bldalpha, fc, sc)
                } else {
                    fc
                }
            },
            2 => brighten(bldy, fc),
            3 => darken(bldy, fc),
            _ => fc,
        }
    } else {
        fc
    }
}

/// The color effect applied to a semi-transparent object pixel: it always
/// alpha-blends onto a targeted second layer, and otherwise falls back to
/// the plain brighten or darken effect.
pub open spec fn sp_blend_semitrans(
    effect: u32,
    bldcnt: u16,
    bldalpha: u16,
    bldy: u16,
    fc: u32,
    s: u32,
    sc: u32,
) -> u32 {
    if ((bldcnt as u32) >> (8 + s) as u32) & 1 == 1 {
        sp_alpha_blend(bldalpha, fc, sc)
    } else if effect == 2 {
        sp_brighten(bldy, fc)
    } else if effect == 3 {
        sp_darken(bldy, fc)
    } else {
        fc
    }
}

/// The color effect applied to a semi-transparent object pixel; see
/// [`sp_blend_semitrans`].
pub fn blend_semitrans(
    effect: u32,
    bldcnt: u16,
    bldalpha: u16,
    bldy: u16,
    fc: u32,
    s: u32,
    sc: u32,
) -> (r: u32)
    requires
        effect <= 3,
        s <= 16,
    ensures
        r == sp_blend_semitrans(effect, bldcnt, bldalpha, bldy, fc, s, sc),
{
    if ((bldcnt as u32) >> (8 + s)) & 1 == 1 {
        alpha_blend(bldalpha, fc, sc)
    } else {
        match effect {
            2 => brighten(bldy, fc),
            3 => darken(bldy, fc),
            _ => fc,
        }
    }
}

/// The layer enable mask at column `x`: window 0, then window 1, then the
/// object window, then the outside mask; all layers when windowing is off.
pub open spec fn sp_en_mask(
    win_enable: bool,
    in_win0: bool,
    in_win1: bool,
    in_wino: bool,
    win0h: u16,
    win1h: u16,
    winin: u16,
    winout: u16,
    owin: Seq<u32>,
    x: int,
) -> u32 {
    if win_enable {
        if in_win0 && sp_in_win_hori(win0h, x as u32) {
            ((winin & 0xff) as u32)
        } else if in_win1 && sp_in_win_hori(win1h, x as u32) {
            ((winin >> 8) as u32)
        } else if in_wino && owin[x] != 0 {
            ((winout >> 8) as u32)
        } else {
            ((winout & 0xff) as u32)
        }
    } else {
        0xffu32
    }
}

/// The first pass of the priority scan: the smallest packed value among the
/// enabled layers, seeded with the backdrop. Layers are visited in the
/// order object, background 0 to 3; ties keep the earlier layer.
pub open spec fn sp_first_scan(
    en0: bool,
    en1: bool,
    en2: bool,
    en3: bool,
    eno: bool,
    l0: u32,
    l1: u32,
    l2: u32,
    l3: u32,
    lo: u32,
    backdrop: u32,
    skip: u32,
) -> (u32, u32) {
    let f0 = 5u32;
    let c0 = backdrop;
    let f1 = if eno && skip != 4 && lo < c0 {
        4u32
    } else {
        f0
    };
    let c1 = if eno && skip != 4 && lo < c0 {
        lo
    } else {
        c0
    };
    let f2 = if en0 && skip != 0 && l0 < c1 {
        0u32
    } else {
        f1
    };
    let c2 = if en0 && skip != 0 && l0 < c1 {
        l0
    } else {
        c1
    };
    let f3 = if en1 && skip != 1 && l1 < c2 {
        1u32
    } else {
        f2
    };
    let c3 = if en1 && skip != 1 && l1 < c2 {
        l1
    } else {
        c2
    };
    let f4 = if en2 && skip != 2 && l2 < c3 {
        2u32
    } else {
        f3
    };
    let c4 = if en2 && skip != 2 && l2 < c3 {
        l2
    } else {
        c3
    };
    let f5 = if en3 && skip != 3 && l3 < c4 {
        3u32
    } else {
        f4
    };
    let c5 = if en3 && skip != 3 && l3 < c4 {
        l3
    } else {
        c4
    };
    (f5, c5)
}

/// The priority scan, as executable code; see [`sp_first_scan`]. A `skip`
/// of 6 skips no layer.
fn first_scan(
    en0: bool,
    en1: bool,
    en2: bool,
    en3: bool,
    eno: bool,
    l0: u32,
    l1: u32,
    l2: u32,
    l3: u32,
    lo: u32,
    backdrop: u32,
    skip: u32,
) -> (r: (u32, u32))
    ensures
        r == sp_first_scan(en0, en1, en2, en3, eno, l0, l1, l2, l3, lo, backdrop, skip),
{
    let mut f: u32 = 5;
    let mut c: u32 = backdrop;
    if eno && skip != 4 && lo < c {
        f = 4;
        c = lo;
    }
    if en0 && skip != 0 && l0 < c {
        f = 0;
        c = l0;
    }
    if en1 && skip != 1 && l1 < c {
        f = 1;
        c = l1;
    }
    if en2 && skip != 2 && l2 < c {
        f = 2;
        c = l2;
    }
    if en3 && skip != 3 && l3 < c {
        f = 3;
        c = l3;
    }
    (f, c)
}

/// The layer enable mask of one column, as executable code; see
/// [`sp_en_mask`].
fn en_mask_at(
    low: &LineBuf,
    win_enable: bool,
    in_win0: bool,
    in_win1: bool,
    in_wino: bool,
    win0h: u16,
    win1h: u16,
    winin: u16,
    winout: u16,
    x: u32,
) -> (r: u32)
    requires
        low.wf(),
        x < 240,
    ensures
        r == sp_en_mask(
            win_enable,
            in_win0,
            in_win1,
            in_wino,
            win0h,
            win1h,
            winin,
            winout,
            low@,
            x as int,
        ),
{
    if win_enable {
        if in_win0 && crate::io::ppu::render::in_win_hori(win0h, x) {
            (winin & 0xff) as u32
        } else if in_win1 && crate::io::ppu::render::in_win_hori(win1h, x) {
            (winin >> 8) as u32
        } else if in_wino && low.get(x) != 0 {
            (winout >> 8) as u32
        } else {
            (winout & 0xff) as u32
        }
    } else {
        0xff
    }
}

/// The combined pixel at column `x`, given the five layer lines, the
/// object-window mask, and the relevant IO register values.
pub open spec fn sp_combine_pixel(
    en0: bool,
    en1: bool,
    en2: bool,
    en3: bool,
    eno: bool,
    l0s: Seq<u32>,
    l1s: Seq<u32>,
    l2s: Seq<u32>,
    l3s: Seq<u32>,
    los: Seq<u32>,
    owin: Seq<u32>,
    win_enable: bool,
    in_win0: bool,
    in_win1: bool,
    in_wino: bool,
    win0h: u16,
    win1h: u16,
    winin: u16,
    winout: u16,
    bldcnt: u16,
    bldalpha: u16,
    bldy: u16,
    backdrop: u32,
    x: int,
) -> u32 {
    let effect = ((bldcnt as u32) >> 6) & 3;
    let em = sp_en_mask(
        win_enable,
        in_win0,
        in_win1,
        in_wino,
        win0h,
        win1h,
        winin,
        winout,
        owin,
        x,
    );
    let e0 = en0 && (em & 1) != 0;
    let e1 = en1 && (em & 2) != 0;
    let e2 = en2 && (em & 4) != 0;
    let e3 = en3 && (em & 8) != 0;
    let eo = eno && (em & 16) != 0;
    let first = sp_first_scan(e0, e1, e2, e3, eo, l0s[x], l1s[x], l2s[x], l3s[x], los[x], backdrop, 6);
    let f = first.0;
    let fc = first.1;
    let has_second = (fc & SEMITRANS != 0) || ((em & 32) != 0 && effect == 1);
    let second = if has_second {
        sp_first_scan(e0, e1, e2, e3, eo, l0s[x], l1s[x], l2s[x], l3s[x], los[x], backdrop, f)
    } else {
        (16u32, TRANSPARENT)
    };
    let s = second.0;
    let sc = second.1;
    if fc & SEMITRANS != 0 {
        sp_blend_semitrans(effect, bldcnt, bldalpha, bldy, fc, s, sc)
    } else if (em & 32) != 0 && effect != 0 {
        sp_blend(effect, bldcnt, bldalpha, bldy, f, fc, s, sc)
    } else {
        fc
    }
}


/// Composites one column from the five layer buffers; see
/// [`sp_combine_pixel`].
#[verifier::rlimit(100)]
fn combine_pixel(
    l0: &LineBuf,
    l1: &LineBuf,
    l2: &LineBuf,
    l3: &LineBuf,
    lo: &LineBuf,
    low: &LineBuf,
    bg0en: bool,
    bg1en: bool,
    bg2en: bool,
    bg3en: bool,
    objen: bool,
    win_enable: bool,
    in_win0: bool,
    in_win1: bool,
    in_wino: bool,
    win0h: u16,
    win1h: u16,
    winin: u16,
    winout: u16,
    bldcnt: u16,
    bldalpha: u16,
    bldy: u16,
    backdrop: u32,
    x: u32,
) -> (r: u32)
    requires
        l0.wf(),
        l1.wf(),
        l2.wf(),
        l3.wf(),
        lo.wf(),
        low.wf(),
        x < 240,
    ensures
        r == sp_combine_pixel(
            bg0en,
            bg1en,
            bg2en,
            bg3en,
            objen,
            l0@,
            l1@,
            l2@,
            l3@,
            lo@,
            low@,
            win_enable,
            in_win0,
            in_win1,
            in_wino,
            win0h,
            win1h,
            winin,
            winout,
            bldcnt,
            bldalpha,
            bldy,
            backdrop,
            x as int,
        ),
{
    let effect = ((bldcnt as u32) >> 6) & 3;
    let em = en_mask_at(low, win_enable, in_win0, in_win1, in_wino, win0h, win1h, winin, winout, x);

    let e0 = bg0en && (em & 1) != 0;
    let e1 = bg1en && (em & 2) != 0;
    let e2 = bg2en && (em & 4) != 0;
    let e3 = bg3en && (em & 8) != 0;
    let eo = objen && (em & 16) != 0;

    let v0 = l0.get(x);
    let v1 = l1.get(x);
    let v2 = l2.get(x);
    let v3 = l3.get(x);
    let vo = lo.get(x);

    let first = first_scan(e0, e1, e2, e3, eo, v0, v1, v2, v3, vo, backdrop, 6);
    let f = first.0;
    let fc = first.1;

    let has_second = (fc & SEMITRANS != 0) || ((em & 32) != 0 && effect == 1);
    let second: (u32, u32) = if has_second {
        first_scan(e0, e1, e2, e3, eo, v0, v1, v2, v3, vo, backdrop, f)
    } else {
        (16, TRANSPARENT)
    };
    let s = second.0;
    let sc = second.1;

    if fc & SEMITRANS != 0 {
        blend_semitrans(effect, bldcnt, bldalpha, bldy, fc, s, sc)
    } else if (em & 32) != 0 && effect != 0 {
        blend(effect, bldcnt, bldalpha, bldy, f, fc, s, sc)
    } else {
        fc
    }
}

/// The per-layer enable bits of DISPCNT, restricted to the layers the
/// display mode can show; modes 6 and 7 show no background at all.
pub open spec fn sp_layer_enables(dspcnt: u16) -> (bool, bool, bool, bool, bool) {
    let d = dspcnt as u32;
    let mode = d & 7;
    (
        mode <= 1 && (d >> 8) & 1 == 1,
        mode <= 1 && (d >> 9) & 1 == 1,
        (d >> 10) & 1 == 1 && mode <= 5,
        (mode == 0 || mode == 2) && (d >> 11) & 1 == 1,
        (d >> 12) & 1 == 1,
    )
}


/// One text-background line as a sequence.
pub open spec fn sp_text_line(
    vram: Seq<u8>,
    pram: Seq<u8>,
    ctrl: u16,
    xoff: u32,
    yoff: u32,
    row: u32,
    bg: u32,
) -> Seq<u32> {
    Seq::new(240, |x: int| sp_text_pixel(vram, pram, ctrl, xoff, yoff, row, bg, x as u32))
}

/// One rotation/scaling line as a sequence, walked from `(xref, yref)`.
pub open spec fn sp_rotscale_line_seq(
    vram: Seq<u8>,
    pram: Seq<u8>,
    ctrl: RotScaleCtrl,
    bg: u8,
    xref: u32,
    yref: u32,
    pa: u32,
    pc: u32,
) -> Seq<u32> {
    Seq::new(
        240,
        |x: int|
            sp_rotscale_pixel(
                vram,
                pram,
                ctrl,
                bg,
                sp_affine(xref, pa, x as u32),
                sp_affine(yref, pc, x as u32),
            ),
    )
}

/// The whole render state after one scanline: every enabled layer is drawn,
/// the affine latches of drawn rotation/scaling layers advance by one line
/// step, and the combined line composites the drawn layers.
pub open spec fn sp_combine_line(
    rs: RsView,
    reg: Seq<u8>,
    vram: Seq<u8>,
    pram: Seq<u8>,
    oam: Seq<u8>,
    dspcnt: u16,
    row: u32,
) -> RsView {
    let d = dspcnt as u32;
    let mode = d & 7;
    let ens = sp_layer_enables(dspcnt);
    let bg0en = ens.0;
    let bg1en = ens.1;
    let bg2en = ens.2;
    let bg3en = ens.3;
    let objen = ens.4;
    let l0 = if bg0en {
        sp_text_line(
            vram,
            pram,
            sp_le16(reg, 8),
            (sp_le16(reg, 0x10) as u32) & 0x1ff,
            (sp_le16(reg, 0x12) as u32) & 0x1ff,
            row,
            0,
        )
    } else {
        rs.l0
    };
    let l1 = if bg1en {
        sp_text_line(
            vram,
            pram,
            sp_le16(reg, 0xa),
            (sp_le16(reg, 0x14) as u32) & 0x1ff,
            (sp_le16(reg, 0x16) as u32) & 0x1ff,
            row,
            1,
        )
    } else {
        rs.l1
    };
    let bg2p = sp_rotscale_params(
        sp_le16(reg, 0x20),
        sp_le16(reg, 0x22),
        sp_le16(reg, 0x24),
        sp_le16(reg, 0x26),
    );
    let ctrl2 = if mode < 3 {
        RotScaleCtrl::TileMap(sp_le16(reg, 0xc))
    } else {
        RotScaleCtrl::Bitmap(dspcnt)
    };
    let l2 = if bg2en {
        if mode == 0 {
            sp_text_line(
                vram,
                pram,
                sp_le16(reg, 0xc),
                (sp_le16(reg, 0x18) as u32) & 0x1ff,
                (sp_le16(reg, 0x1a) as u32) & 0x1ff,
                row,
                2,
            )
        } else {
            sp_rotscale_line_seq(
                vram,
                pram,
                ctrl2,
                2,
                rs.bg2ref.xref,
                rs.bg2ref.yref,
                bg2p.a,
                bg2p.c,
            )
        }
    } else {
        rs.l2
    };
    let bg2ref = if bg2en && mode != 0 {
        crate::io::ppu::render::BgRef {
            xref: vstd::wrapping::u32_specs::wrapping_add(rs.bg2ref.xref, bg2p.b),
            yref: vstd::wrapping::u32_specs::wrapping_add(rs.bg2ref.yref, bg2p.d),
        }
    } else {
        rs.bg2ref
    };
    let bg3p = sp_rotscale_params(
        sp_le16(reg, 0x30),
        sp_le16(reg, 0x32),
        sp_le16(reg, 0x34),
        sp_le16(reg, 0x36),
    );
    let l3 = if bg3en {
        if mode == 0 {
            sp_text_line(
                vram,
                pram,
                sp_le16(reg, 0xe),
                (sp_le16(reg, 0x1c) as u32) & 0x1ff,
                (sp_le16(reg, 0x1e) as u32) & 0x1ff,
                row,
                3,
            )
        } else {
            sp_rotscale_line_seq(
                vram,
                pram,
                RotScaleCtrl::TileMap(sp_le16(reg, 0xe)),
                3,
                rs.bg3ref.xref,
                rs.bg3ref.yref,
                bg3p.a,
                bg3p.c,
            )
        }
    } else {
        rs.l3
    };
    let bg3ref = if bg3en && mode != 0 {
        crate::io::ppu::render::BgRef {
            xref: vstd::wrapping::u32_specs::wrapping_add(rs.bg3ref.xref, bg3p.b),
            yref: vstd::wrapping::u32_specs::wrapping_add(rs.bg3ref.yref, bg3p.d),
        }
    } else {
        rs.bg3ref
    };
    let obj = sp_obj_line(vram, pram, oam, dspcnt, row);
    let lo = if objen {
        obj.0
    } else {
        rs.lo
    };
    let low = if objen {
        obj.1
    } else {
        rs.low
    };
    let win_enable = (d >> 13) & 7 != 0;
    let in_win0 = (d >> 13) & 1 == 1 && sp_in_win_vert(sp_le16(reg, 0x44), row);
    let in_win1 = (d >> 14) & 1 == 1 && sp_in_win_vert(sp_le16(reg, 0x46), row);
    let in_wino = (d >> 15) & 1 == 1;
    let win0h: u16 = if in_win0 {
        sp_le16(reg, 0x40)
    } else {
        0u16
    };
    let win1h: u16 = if in_win1 {
        sp_le16(reg, 0x42)
    } else {
        0u16
    };
    let backdrop = (sp_le16(pram, 0) as u32) | 0xe0000000;
    let line = Seq::new(
        240,
        |x: int|
            sp_combine_pixel(
                bg0en,
                bg1en,
                bg2en,
                bg3en,
                objen,
                l0,
                l1,
                l2,
                l3,
                lo,
                low,
                win_enable,
                in_win0,
                in_win1,
                in_wino,
                win0h,
                win1h,
                sp_le16(reg, 0x48),
                sp_le16(reg, 0x4a),
                sp_le16(reg, 0x50),
                sp_le16(reg, 0x52),
                sp_le16(reg, 0x54),
                backdrop,
                x,
            ),
    );
    RsView { l0, l1, l2, l3, lo, low, line, bg2ref, bg3ref }
}

/// Renders every enabled layer for `row` and composites them into the
/// final line buffer, applying windows and color special effects.
#[verifier::rlimit(100)]
pub fn combine_line(
    state: &mut RenderState,
    row: u32,
    dspcnt: u16,
    io: &IoReg,
    vram: &Ram,
    pram: &Ram,
    oam: &Ram,
)
    requires
        old(state).wf(),
        io.wf(),
        vram@.len() == 0x20000,
        pram@.len() == 0x400,
        oam@.len() == 0x400,
        row < 160,
    ensures
        final(state).wf(),
        final(state)@ == sp_combine_line(old(state)@, io.reg@, vram@, pram@, oam@, dspcnt, row),
{
    broadcast use crate::bit_util::lemma_and_mask_le_u16;

    let d = dspcnt as u32;
    let mode = d & 7;

    let bg0en = mode <= 1 && (d >> 8) & 1 == 1;
    if bg0en {
        let ctrl = io.get_priv(8);
        let xoff = (io.get_priv(0x10) as u32) & 0x1ff;
        let yoff = (io.get_priv(0x12) as u32) & 0x1ff;
        render_textmode_line(&mut state.line0, row, vram, pram, ctrl, xoff, yoff, 0);
    }
    let bg1en = mode <= 1 && (d >> 9) & 1 == 1;
    if bg1en {
        let ctrl = io.get_priv(0xa);
        let xoff = (io.get_priv(0x14) as u32) & 0x1ff;
        let yoff = (io.get_priv(0x16) as u32) & 0x1ff;
        render_textmode_line(&mut state.line1, row, vram, pram, ctrl, xoff, yoff, 1);
    }
    let bg2en = (d >> 10) & 1 == 1 && mode <= 5;
    if bg2en {
        if mode == 0 {
            let ctrl = io.get_priv(0xc);
            let xoff = (io.get_priv(0x18) as u32) & 0x1ff;
            let yoff = (io.get_priv(0x1a) as u32) & 0x1ff;
            render_textmode_line(&mut state.line2, row, vram, pram, ctrl, xoff, yoff, 2);
        } else {
            let params = crate::io::ppu::render::RotScaleParams::new(
                io.get_priv(0x20),
                io.get_priv(0x22),
                io.get_priv(0x24),
                io.get_priv(0x26),
            );
            let ctrl = if mode < 3 {
                RotScaleCtrl::TileMap(io.get_priv(0xc))
            } else {
                RotScaleCtrl::Bitmap(dspcnt)
            };
            render_rotscale_line(&mut state.line2, vram, pram, &mut state.bg2ref, params, ctrl, 2);
        }
    }
    let bg3en = (mode == 0 || mode == 2) && (d >> 11) & 1 == 1;
    if bg3en {
        if mode == 0 {
            let ctrl = io.get_priv(0xe);
            let xoff = (io.get_priv(0x1c) as u32) & 0x1ff;
            let yoff = (io.get_priv(0x1e) as u32) & 0x1ff;
            render_textmode_line(&mut state.line3, row, vram, pram, ctrl, xoff, yoff, 3);
        } else {
            let params = crate::io::ppu::render::RotScaleParams::new(
                io.get_priv(0x30),
                io.get_priv(0x32),
                io.get_priv(0x34),
                io.get_priv(0x36),
            );
            render_rotscale_line(
                &mut state.line3,
                vram,
                pram,
                &mut state.bg3ref,
                params,
                RotScaleCtrl::TileMap(io.get_priv(0xe)),
                3,
            );
        }
    }
    let objen = (d >> 12) & 1 == 1;
    if objen {
        render_obj_line(&mut state.lineo, &mut state.line_objwindow, row, vram, pram, oam, dspcnt);
    }

    let win_enable = (d >> 13) & 7 != 0;
    let in_win0 = (d >> 13) & 1 == 1 && in_win_vert(io.get_priv(0x44), row);
    let in_win1 = (d >> 14) & 1 == 1 && in_win_vert(io.get_priv(0x46), row);
    let in_wino = (d >> 15) & 1 == 1;

    let winin = io.get_priv(0x48);
    let winout = io.get_priv(0x4a);
    let win0h: u16 = if in_win0 {
        io.get_priv(0x40)
    } else {
        0
    };
    let win1h: u16 = if in_win1 {
        io.get_priv(0x42)
    } else {
        0
    };

    let bldcnt = io.get_priv(0x50);
    let effect = ((bldcnt as u32) >> 6) & 3;
    let bldalpha = io.get_priv(0x52);
    let bldy = io.get_priv(0x54);

    let backdrop = (pram.load16(0).get() as u32) | 0xe0000000;

    let ghost l0 = state.line0@;
    let ghost l1 = state.line1@;
    let ghost l2 = state.line2@;
    let ghost l3 = state.line3@;
    let ghost lo = state.lineo@;
    let ghost low = state.line_objwindow@;
    let ghost b2 = state.bg2ref;
    let ghost b3 = state.bg3ref;

    let mut x: u32 = 0;
    while x < 240
        invariant
            state.wf(),
            x <= 240,
            state.line0@ == l0,
            state.line1@ == l1,
            state.line2@ == l2,
            state.line3@ == l3,
            state.lineo@ == lo,
            state.line_objwindow@ == low,
            state.bg2ref == b2,
            state.bg3ref == b3,
            forall|i: int|
                0 <= i < x ==> state.line@[i] == sp_combine_pixel(
                    bg0en,
                    bg1en,
                    bg2en,
                    bg3en,
                    objen,
                    l0,
                    l1,
                    l2,
                    l3,
                    lo,
                    low,
                    win_enable,
                    in_win0,
                    in_win1,
                    in_wino,
                    win0h,
                    win1h,
                    winin,
                    winout,
                    bldcnt,
                    bldalpha,
                    bldy,
                    backdrop,
                    i,
                ),
        decreases 240 - x,
    {
        let result = combine_pixel(
            &state.line0,
            &state.line1,
            &state.line2,
            &state.line3,
            &state.lineo,
            &state.line_objwindow,
            bg0en,
            bg1en,
            bg2en,
            bg3en,
            objen,
            win_enable,
            in_win0,
            in_win1,
            in_wino,
            win0h,
            win1h,
            winin,
            winout,
            bldcnt,
            bldalpha,
            bldy,
            backdrop,
            x,
        );
        state.line.set(x, result);
        x = x + 1;
    }

    proof {
        let exp = sp_combine_line(old(state)@, io.reg@, vram@, pram@, oam@, dspcnt, row);
        assert(state.line0@ =~= exp.l0);
        assert(state.line1@ =~= exp.l1);
        assert(state.line2@ =~= exp.l2);
        assert(state.line3@ =~= exp.l3);
        assert(state.lineo@ =~= exp.lo);
        assert(state.line_objwindow@ =~= exp.low);
        assert(state.line@ =~= exp.line);
        assert(state@ =~= exp);
    }
}

} // verus!
