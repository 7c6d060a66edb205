use gba_rs::gba::Gba;
use gba_rs::io::key::KeyState;
use gba_rs::mmu::gba::wait::WaitStates;
use gba_rs::rom::GameRom;

fn fresh() -> Gba {
    Gba::new(GameRom::empty(), GameRom::empty())
}

#[test]
fn test_if_write_one_to_clear() {
    let mut gba = fresh();
    gba.io.raise_interrupt(1);
    gba.io.raise_interrupt(3);
    assert_eq!(gba.load16(0x04000202), (1 << 1) | (1 << 3));
    // acknowledging source 1 clears only its bit
    gba.write16(0x04000202, 1 << 1);
    assert_eq!(gba.load16(0x04000202), 1 << 3);
    // acknowledging an unset bit changes nothing
    gba.write16(0x04000202, 1 << 5);
    assert_eq!(gba.load16(0x04000202), 1 << 3);
}

#[test]
fn test_dispstat_ro_mask() {
    let mut gba = fresh();
    // the low status bits of DISPSTAT are read-only; mask is 0x0047
    gba.write16(0x04000004, 0xffff);
    assert_eq!(gba.load16(0x04000004) & 0x0047, 0);
    assert_eq!(gba.load16(0x04000004), 0xffff & !0x0047);
}

#[test]
fn test_wo_mask_reads_zero() {
    let mut gba = fresh();
    gba.write16(0x04000062, 0xffff);
    assert_eq!(gba.load16(0x04000062) & 0x001f, 0);
    assert_eq!(gba.load16(0x04000062), 0xffe0);
}

#[test]
fn test_unwritable_register_drops() {
    let mut gba = fresh();
    // VCOUNT is read-only
    gba.write16(0x04000006, 0x1234);
    assert_eq!(gba.load16(0x04000006), 0);
}

#[test]
fn test_unreadable_register() {
    let mut gba = fresh();
    // BG0HOFS is write-only; its halfword pair is write-only too, so a
    // 16-bit read of it answers the open-bus default
    gba.write16(0x04000010, 0x01ff);
    assert_eq!(gba.load16(0x04000010), 0);
}

#[test]
fn test_timer_reload_on_enable_edge() {
    let mut gba = fresh();
    // the reload register takes the written value, the counter stays
    gba.write16(0x04000100, 0x1234);
    assert_eq!(gba.load16(0x04000100), 0);
    // a rising enable edge loads the counter from the reload register
    gba.write16(0x04000102, 0x0080);
    assert_eq!(gba.load16(0x04000100), 0x1234);
    // rewriting the enabled control does not reload
    gba.write16(0x04000100, 0x5678);
    gba.write16(0x04000102, 0x0080);
    assert_eq!(gba.load16(0x04000100), 0x1234);
}

#[test]
fn test_timer_counts() {
    let mut gba = fresh();
    // enable timer 0 with no prescaling; each IO cycle counts once
    gba.write16(0x04000102, 0x0080);
    gba.io_cycle();
    gba.io_cycle();
    gba.io_cycle();
    assert_eq!(gba.load16(0x04000100), 3);
}

#[test]
fn test_timer_overflow_interrupt() {
    let mut gba = fresh();
    gba.write16(0x04000100, 0xfffe);
    // enable with overflow interrupt; counter starts at the reload value
    gba.write16(0x04000102, 0x00c0);
    gba.io_cycle();
    gba.io_cycle();
    // wrapped: reloaded and the timer 0 interrupt (source 3) is raised
    assert_eq!(gba.load16(0x04000100), 0xfffe);
    assert_eq!(gba.load16(0x04000202) & (1 << 3), 1 << 3);
}

#[test]
fn test_key_interrupt() {
    let mut gba = fresh();
    // enable, AND mode, watching the A and B bits of KEYINPUT
    gba.write16(0x04000132, (1 << 14) | (1 << 15) | 0x003);
    gba.io.set_keyreg(&KeyState::none());
    // with nothing pressed KEYINPUT holds 0x3ff, so the masked bits all match
    assert_eq!(gba.load16(0x04000130), 0x3ff);
    assert_eq!(gba.load16(0x04000202) & (1 << 12), 1 << 12);
}

#[test]
fn test_key_interrupt_or_mode() {
    let mut gba = fresh();
    // enable, OR mode
    gba.write16(0x04000132, (1 << 14) | 0x003);
    let mut ks = KeyState::none();
    ks.a = true;
    gba.io.set_keyreg(&ks);
    // A pressed clears its KEYINPUT bit; B's bit still matches the mask
    assert_eq!(gba.load16(0x04000130), 0x3fe);
    assert_eq!(gba.load16(0x04000202) & (1 << 12), 1 << 12);
}

#[test]
fn test_keyinput_bitmap() {
    let mut gba = fresh();
    let mut ks = KeyState::none();
    ks.start = true;
    ks.u = true;
    gba.io.set_keyreg(&ks);
    assert_eq!(gba.load16(0x04000130), !((1 << 3) | (1 << 6)) & 0x3ff);
}

#[test]
fn test_waitstates() {
    let mut w = WaitStates::new();
    // power-on: 4 waits + 1 access cycle in the first ROM window
    assert_eq!(w.get_waitstates(0x08000000, 2, false), 5);
    assert_eq!(w.get_waitstates(0x08000000, 2, true), 3);
    // a 32-bit access pays for the sequential second half
    assert_eq!(w.get_waitstates(0x08000000, 4, false), 8);
    w.set_waitcnt(0x0014);
    // sram selector 0 keeps 4 waits; rom selector 1 gives 3, fast seq 1
    assert_eq!(w.get_waitstates(0x08000000, 2, false), 4);
    assert_eq!(w.get_waitstates(0x08000000, 2, true), 2);
    assert_eq!(w.get_waitstates(0x0e000000, 1, false), 5);
    // internal memory takes a single cycle
    assert_eq!(w.get_waitstates(0x02000000, 2, false), 1);
}
