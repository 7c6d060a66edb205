use gba_rs::gba::{CYCLES_PER_FRAME, Gba};
use gba_rs::mmu::gba::save::eeprom::Eeprom;
use gba_rs::rom::GameRom;

fn fresh() -> Gba {
    Gba::new(GameRom::empty(), GameRom::empty())
}

#[test]
fn test_immediate_dma_copy() {
    let mut gba = fresh();
    for i in 0u32..0x100 {
        gba.write32(0x02000000 + 4 * i, i);
    }
    gba.write32(0x040000b0, 0x02000000);
    gba.write32(0x040000b4, 0x02001000);
    gba.write16(0x040000b8, 0x100);
    // enable, 32-bit, immediate timing: the copy runs inside the write
    gba.write16(0x040000ba, 0x8400);
    for i in 0u32..0x100 {
        assert_eq!(gba.load32(0x02001000 + 4 * i), i);
    }
    // repeat is clear, so the enable bit has dropped
    assert_eq!(gba.load16(0x040000ba) & 0x8000, 0);
}

#[test]
fn test_dma_completion_interrupt() {
    let mut gba = fresh();
    gba.write32(0x040000b0, 0x02000000);
    gba.write32(0x040000b4, 0x02000100);
    gba.write16(0x040000b8, 4);
    // enable, 32-bit, immediate, interrupt on end
    gba.write16(0x040000ba, 0xc400);
    assert_eq!(gba.load16(0x040000ba) & 0x8000, 0);
    assert_eq!(gba.load16(0x04000202) & (1 << 8), 1 << 8);
}

#[test]
fn test_dma_halfword_decrement() {
    let mut gba = fresh();
    gba.write16(0x03000000, 0x1111);
    gba.write16(0x03000002, 0x2222);
    gba.write32(0x040000b0, 0x03000002);
    gba.write32(0x040000b4, 0x03000012);
    gba.write16(0x040000b8, 2);
    // enable, halfword, source and destination both decrementing
    gba.write16(0x040000ba, 0x80a0);
    assert_eq!(gba.load16(0x03000012), 0x2222);
    assert_eq!(gba.load16(0x03000010), 0x1111);
}

#[test]
fn test_mirroring_board_wram() {
    let mut gba = fresh();
    gba.write8(0x02000010, 0xab);
    assert_eq!(gba.load8(0x02040010), 0xab);
    assert_eq!(gba.load8(0x02080010), 0xab);
}

#[test]
fn test_mirroring_vram_fold() {
    let mut gba = fresh();
    // the top 32 KiB window folds onto the chunk below it
    gba.write8(0x06010000, 0x5c);
    assert_eq!(gba.load8(0x06018000), 0x5c);
    // and the whole block mirrors every 128 KiB
    assert_eq!(gba.load8(0x06030000), 0x5c);
}

#[test]
fn test_mirroring_rom_banks() {
    let rom = GameRom::new(vec![0x11, 0x22, 0x33, 0x44]);
    let mut gba = Gba::new(rom, GameRom::empty());
    assert_eq!(gba.load8(0x08000001), 0x22);
    assert_eq!(gba.load8(0x0a000001), 0x22);
    assert_eq!(gba.load8(0x0c000001), 0x22);
}

#[test]
fn test_unaligned_rotate() {
    let mut gba = fresh();
    gba.write32(0x02000000, 0x11223344);
    assert_eq!(gba.read32(0x02000000), 0x11223344);
    assert_eq!(gba.read32(0x02000001), 0x11223344u32.rotate_right(8));
    assert_eq!(gba.read32(0x02000002), 0x11223344u32.rotate_right(16));
    assert_eq!(gba.read32(0x02000003), 0x11223344u32.rotate_right(24));
    assert_eq!(gba.read16(0x02000000), 0x3344);
    assert_eq!(gba.read16(0x02000001), 0x3344u32.rotate_right(8));
}

#[test]
fn test_bios_prefetch_guard() {
    let bios = GameRom::new(vec![0xde, 0xad, 0xbe, 0xef]);
    let mut gba = Gba::new(GameRom::empty(), bios);
    gba.set_prefetch(0);
    assert_eq!(gba.load8(0x00000001), 0xad);
    // once the CPU runs outside the BIOS, its contents read as 0
    gba.set_prefetch(0x08000000);
    assert_eq!(gba.load8(0x00000001), 0);
}

#[test]
fn test_vblank_interrupt_delivery() {
    let mut gba = fresh();
    gba.write16(0x04000208, 1);
    gba.write16(0x04000200, 1);
    gba.write16(0x04000004, 8);
    let mut frame_done = false;
    // 161 lines of dots is comfortably past the VBlank edge
    for _ in 0..(4 * 308 * 161) {
        frame_done = frame_done || gba.system_cycle();
    }
    assert!(!frame_done);
    assert_eq!(gba.load16(0x04000202) & 1, 1);
    assert!(gba.irq_ready());
}

#[test]
fn test_frame_boundary() {
    let mut gba = fresh();
    let mut frames = 0u32;
    for _ in 0..CYCLES_PER_FRAME {
        if gba.system_cycle() {
            frames += 1;
        }
    }
    assert_eq!(frames, 1);
    // save states are taken here: the counters sit at the frame origin
    assert_eq!(gba.ppu.col, 0);
    assert_eq!(gba.ppu.row, 0);
}

#[test]
fn test_eeprom_write_read_roundtrip() {
    let mut ee = Eeprom::new();
    let pattern: u64 = 0xdeadbeefcafebabe;

    // write request: start bit, then a 0 for the write opcode
    ee.write(1, 81);
    ee.write(0, 81);
    // 14 address bits, all zero
    for _ in 0..14 {
        ee.write(0, 81);
    }
    // 64 data bits, most significant first
    for i in (0..64).rev() {
        ee.write(((pattern >> i) & 1) as u16, 81);
    }
    // final clock commits the write
    ee.write(0, 81);
    assert_eq!(ee.read(), 1);

    // read request: start bit, then a 1 for the read opcode
    ee.write(1, 17);
    ee.write(1, 17);
    for _ in 0..14 {
        ee.write(0, 17);
    }
    // trailing clock of the request latches the data word
    ee.write(0, 17);

    // the 68-bit answer: four zero bits, then the pattern, most
    // significant bit first
    for _ in 0..4 {
        assert_eq!(ee.read(), 0);
    }
    for i in (0..64).rev() {
        assert_eq!(ee.read(), ((pattern >> i) & 1) as u16, "bit {}", i);
    }
}

#[test]
fn test_eeprom_idle_reads_one() {
    let mut ee = Eeprom::new();
    assert_eq!(ee.read(), 1);
    // writes without an active DMA are ignored
    ee.write(1, 0);
    assert_eq!(ee.read(), 1);
}

#[test]
fn test_spu_square_wave() {
    let mut spu = gba_rs::io::spu::Spu::new();
    assert_eq!(spu.cycle(), 1);
    for _ in 1..512 {
        assert_eq!(spu.cycle(), 0);
    }
    assert_eq!(spu.cycle(), -1);
}
