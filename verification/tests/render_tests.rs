use gba_rs::gba::Gba;
use gba_rs::io::ppu::render::combine::{alpha_blend, colour_repack, colour_unpack};
use gba_rs::io::ppu::render::{colour16_rgb, colour_pack, in_win_hori, in_win_vert};
use gba_rs::rom::GameRom;

#[test]
fn ppu_test_colourconvert() {
    assert_eq!((0xf8, 0, 0), colour16_rgb(0x1f));
    assert_eq!((0, 0xf8, 0), colour16_rgb(0x3e0));
    assert_eq!((0, 0, 0xf8), colour16_rgb(0x7c00));
}

#[test]
fn render_test_colourconvert() {
    assert_eq!((0xf8, 0, 0), colour16_rgb(0x1f));
    assert_eq!((0, 0xf8, 0), colour16_rgb(0x3e0));
    assert_eq!((0, 0, 0xf8), colour16_rgb(0x7c00));
}

#[test]
fn mod_test_colourconvert() {
    assert_eq!((0xf8, 0, 0), colour16_rgb(0x1f));
    assert_eq!((0, 0xf8, 0), colour16_rgb(0x3e0));
    assert_eq!((0, 0, 0xf8), colour16_rgb(0x7c00));
}

#[test]
fn test_alpha_blend1() {
    let c1 = colour_repack((31, 31, 0)) as u32;
    let c2 = colour_repack((0, 27, 31)) as u32;

    let bldalpha = (8 << 8) | (8 << 0);

    let cr = colour_unpack(alpha_blend(bldalpha, c1, c2) as u16);

    assert_eq!((15, 29, 15), cr);
}

#[test]
fn test_alpha_blend2() {
    let c1 = colour_repack((0, 0, 0)) as u32;
    let c2 = colour_repack((31, 31, 31)) as u32;

    let bldalpha = (15 << 8) | (16 << 0);

    let cr = colour_unpack(alpha_blend(bldalpha, c1, c2) as u16);

    assert_eq!((29, 29, 29), cr);
}

#[test]
fn test_colour_pack() {
    assert_eq!(colour_pack((0xf8, 0x10, 0x08)), 0x00f81008);
}

#[test]
fn test_window_vertical_range() {
    // degenerate equal pair at or above 0xE8 spans every row
    assert!(in_win_vert((0xe8 << 8) | 0xe8, 0));
    assert!(in_win_vert((0xff << 8) | 0xff, 227));
    // equal pair below 0xE8 spans nothing
    assert!(!in_win_vert((0x10 << 8) | 0x10, 0x10));
    // ordinary range [y1, y2)
    assert!(in_win_vert((0x10 << 8) | 0x20, 0x10));
    assert!(in_win_vert((0x10 << 8) | 0x20, 0x1f));
    assert!(!in_win_vert((0x10 << 8) | 0x20, 0x20));
    assert!(!in_win_vert((0x10 << 8) | 0x20, 0x0f));
    // wrapped range
    assert!(in_win_vert((0x80 << 8) | 0x10, 0x90));
    assert!(in_win_vert((0x80 << 8) | 0x10, 0x05));
    assert!(!in_win_vert((0x80 << 8) | 0x10, 0x40));
}

#[test]
fn test_window_horizontal_range() {
    assert!(in_win_hori((0x10 << 8) | 0x20, 0x18));
    assert!(!in_win_hori((0x10 << 8) | 0x20, 0x20));
    assert!(in_win_hori((0xf0 << 8) | 0x08, 0xf8));
    assert!(in_win_hori((0xf0 << 8) | 0x08, 0x04));
    assert!(!in_win_hori((0xf0 << 8) | 0x08, 0x80));
}

#[test]
fn test_mode3_scanline() {
    let mut gba = Gba::new(GameRom::empty(), GameRom::empty());
    // mode 3, BG2 enabled
    gba.write16(0x04000000, 0x0403);
    // gradient in the first VRAM row
    for x in 0u32..240 {
        gba.write16(0x06000000 + 2 * x, x as u16);
    }
    gba.render_line(0);
    for x in 0usize..240 {
        let (r, g, b) = colour16_rgb(x as u16);
        let rgb = colour_pack((r, g, b));
        let off = x * 4;
        let got = (gba.ppu.pixels[off] as u32)
            | ((gba.ppu.pixels[off + 1] as u32) << 8)
            | ((gba.ppu.pixels[off + 2] as u32) << 16)
            | ((gba.ppu.pixels[off + 3] as u32) << 24);
        assert_eq!(got, rgb);
    }
}

#[test]
fn test_backdrop_line() {
    let mut gba = Gba::new(GameRom::empty(), GameRom::empty());
    // no layer enabled: every pixel shows the backdrop color
    gba.write16(0x05000000, 0x7c00);
    gba.write16(0x04000000, 0x0000);
    gba.render_line(0);
    let (r, g, b) = colour16_rgb(0x7c00);
    let rgb = colour_pack((r, g, b));
    let got = (gba.ppu.pixels[0] as u32)
        | ((gba.ppu.pixels[1] as u32) << 8)
        | ((gba.ppu.pixels[2] as u32) << 16)
        | ((gba.ppu.pixels[3] as u32) << 24);
    assert_eq!(got, rgb);
}

#[test]
fn test_mode0_tile_pixel() {
    let mut gba = Gba::new(GameRom::empty(), GameRom::empty());
    // mode 0, BG0 enabled
    gba.write16(0x04000000, 0x0100);
    // BG0: priority 0, char base 0, 16-color, screen base block 1, 256x256
    gba.write16(0x04000008, 1 << 8);
    // map entry (0,0): tile 1, no flips, palette 2
    gba.write16(0x06000800, (2 << 12) | 1);
    // tile 1, pixel (0,0): color index 7 in the low nibble
    gba.write8(0x06000020, 0x07);
    // palette 2, entry 7: pure green
    gba.write16(0x0500004e, 0x03e0);
    gba.render_line(0);
    let (r, g, b) = colour16_rgb(0x03e0);
    let rgb = colour_pack((r, g, b));
    let got = (gba.ppu.pixels[0] as u32)
        | ((gba.ppu.pixels[1] as u32) << 8)
        | ((gba.ppu.pixels[2] as u32) << 16)
        | ((gba.ppu.pixels[3] as u32) << 24);
    assert_eq!(got, rgb);
}

#[test]
fn test_object_pixel() {
    let mut gba = Gba::new(GameRom::empty(), GameRom::empty());
    // mode 0, objects enabled
    gba.write16(0x04000000, 1 << 12);
    // object 0: at (0,0), 8x8, 256-color, normal mode, tile 2, priority 0
    gba.write16(0x07000000, 1 << 13);
    gba.write16(0x07000002, 0);
    gba.write16(0x07000004, 2);
    // remaining objects disabled
    for o in 1u32..128 {
        gba.write16(0x07000000 + o * 8, 2 << 8);
    }
    // tile 2, pixel (0,0): color index 5
    gba.write8(0x06010040, 5);
    // object palette entry 5: pure red
    gba.write16(0x0500020a, 0x001f);
    gba.render_line(0);
    let (r, g, b) = colour16_rgb(0x001f);
    let rgb = colour_pack((r, g, b));
    let got = (gba.ppu.pixels[0] as u32)
        | ((gba.ppu.pixels[1] as u32) << 8)
        | ((gba.ppu.pixels[2] as u32) << 16)
        | ((gba.ppu.pixels[3] as u32) << 24);
    assert_eq!(got, rgb);
}

#[test]
fn test_affine_object_identity() {
    let mut gba = Gba::new(GameRom::empty(), GameRom::empty());
    // mode 0, objects enabled
    gba.write16(0x04000000, 1 << 12);
    // object 0: affine with parameter set 0, 8x8, 256-color, tile 2
    gba.write16(0x07000000, (1 << 8) | (1 << 13));
    gba.write16(0x07000002, 0);
    gba.write16(0x07000004, 2);
    for o in 1u32..128 {
        gba.write16(0x07000000 + o * 8, 2 << 8);
    }
    // identity matrix in parameter set 0
    gba.write16(0x07000006, 0x100);
    gba.write16(0x0700000e, 0);
    gba.write16(0x07000016, 0);
    gba.write16(0x0700001e, 0x100);
    // tile 2, pixel (1,2): color index 9
    gba.write8(0x06010040 + 1 + 2 * 8, 9);
    // object palette entry 9
    gba.write16(0x05000212, 0x7fff);
    gba.render_line(2);
    let (r, g, b) = colour16_rgb(0x7fff);
    let rgb = colour_pack((r, g, b));
    let off = (2 * 240 + 1) * 4;
    let got = (gba.ppu.pixels[off] as u32)
        | ((gba.ppu.pixels[off + 1] as u32) << 8)
        | ((gba.ppu.pixels[off + 2] as u32) << 16)
        | ((gba.ppu.pixels[off + 3] as u32) << 24);
    assert_eq!(got, rgb);
}

#[test]
fn test_mode4_bitmap_pixel() {
    let mut gba = Gba::new(GameRom::empty(), GameRom::empty());
    // mode 4, BG2 enabled; the affine parameters reset to the identity
    gba.write16(0x04000000, 0x0404);
    // frame 0, pixel (3,0): palette index 0x42
    gba.write8(0x06000003, 0x42);
    gba.write16(0x05000000 + 0x42 * 2, 0x03ff);
    gba.render_line(0);
    let (r, g, b) = colour16_rgb(0x03ff);
    let rgb = colour_pack((r, g, b));
    let off = 3 * 4;
    let got = (gba.ppu.pixels[off] as u32)
        | ((gba.ppu.pixels[off + 1] as u32) << 8)
        | ((gba.ppu.pixels[off + 2] as u32) << 16)
        | ((gba.ppu.pixels[off + 3] as u32) << 24);
    assert_eq!(got, rgb);
}
