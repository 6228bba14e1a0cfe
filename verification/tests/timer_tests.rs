use emu::interrupt::{Interrupt, InterruptFlag, InterruptSource};
use emu::joypad::{GBInput, Joypad};
use emu::timer::{Clock, Timer};

#[test]
fn clock_counts_periods() {
    let mut clock = Clock::new(16);
    assert_eq!(clock.tick(15), 0);
    assert_eq!(clock.carry, 15);
    assert_eq!(clock.tick(1), 1);
    assert_eq!(clock.carry, 0);
    assert_eq!(clock.tick(100), 6);
    assert_eq!(clock.carry, 4);
    assert_eq!(clock.tick(u64::MAX), u64::MAX / 16 + 1);
    assert_eq!(clock.carry, 3);
    let mut unit = Clock::new(1);
    assert_eq!(unit.tick(u64::MAX), u64::MAX);
    assert_eq!(unit.carry, 0);
}

#[test]
fn sixteen_single_cycle_ticks_step_tima_once() {
    let mut intf = Interrupt::default();
    let mut timer = Timer::new();
    timer.write(0xFF07, 0x05);
    assert_eq!(timer.read(0xFF05), 0);
    for _ in 0..15 {
        timer.tick(1, &mut intf);
        assert_eq!(timer.read(0xFF05), 0);
    }
    timer.tick(1, &mut intf);
    assert_eq!(timer.read(0xFF05), 1);
    for _ in 0..16 {
        timer.tick(1, &mut intf);
    }
    assert_eq!(timer.read(0xFF05), 2);
    assert!(!intf.is_raised(InterruptFlag::Timer));
}

#[test]
fn tima_overflow_reloads_and_interrupts() {
    let mut intf = Interrupt::default();
    let mut timer = Timer::new();
    timer.write(0xFF06, 0xAB);
    timer.write(0xFF07, 0x05);
    timer.write(0xFF05, 0xFF);
    for _ in 0..15 {
        timer.tick(1, &mut intf);
    }
    assert_eq!(timer.read(0xFF05), 0xFF);
    assert!(!intf.is_raised(InterruptFlag::Timer));
    timer.tick(1, &mut intf);
    assert_eq!(timer.read(0xFF05), 0xAB);
    assert!(intf.is_raised(InterruptFlag::Timer));
    assert_eq!(intf.read(0xFF0F), 0x04);
}

#[test]
fn ticks_add_up() {
    let mut intf_a = Interrupt::default();
    let mut intf_b = Interrupt::default();
    let mut a = Timer::new();
    let mut b = Timer::new();
    for timer in [&mut a, &mut b] {
        timer.write(0xFF06, 0xF0);
        timer.write(0xFF07, 0x06);
    }
    for step in [3u64, 61, 64, 1, 1000, 7, 4096, 20000] {
        a.tick(step, &mut intf_a);
    }
    b.tick(3 + 61 + 64 + 1 + 1000 + 7 + 4096 + 20000, &mut intf_b);
    assert_eq!(a.read(0xFF04), b.read(0xFF04));
    assert_eq!(a.read(0xFF05), b.read(0xFF05));
    assert_eq!(intf_a.flags, intf_b.flags);
    assert!(intf_b.is_raised(InterruptFlag::Timer));
    // 25232 cycles are 394 steps of 64: 0xF0 + 394 wraps 25 times over 16
    assert_eq!(b.read(0xFF05), 0xF0 + (394 % 16) as u8);
    assert_eq!(b.read(0xFF04), (25232u64 / 256) as u8);
}

#[test]
fn periods_of_tac() {
    for (tac, period) in [(0x04u8, 1024u64), (0x05, 16), (0x06, 64), (0x07, 256)] {
        let mut intf = Interrupt::default();
        let mut timer = Timer::new();
        timer.write(0xFF07, tac);
        timer.tick(period - 1, &mut intf);
        assert_eq!(timer.read(0xFF05), 0);
        timer.tick(1, &mut intf);
        assert_eq!(timer.read(0xFF05), 1);
    }
}

#[test]
fn tima_stands_while_disabled() {
    let mut intf = Interrupt::default();
    let mut timer = Timer::new();
    timer.write(0xFF07, 0x01);
    timer.tick(4096, &mut intf);
    assert_eq!(timer.read(0xFF05), 0);
    assert_eq!(timer.read(0xFF04), 16);
    assert_eq!(timer.read(0xFF07), 0x01);
}

#[test]
fn div_counts_and_resets() {
    let mut intf = Interrupt::default();
    let mut timer = Timer::new();
    timer.tick(255, &mut intf);
    assert_eq!(timer.read(0xFF04), 0);
    timer.tick(1, &mut intf);
    assert_eq!(timer.read(0xFF04), 1);
    timer.tick(200, &mut intf);
    timer.write(0xFF04, 0x55);
    assert_eq!(timer.read(0xFF04), 0);
    // the prescaler restarts too
    timer.tick(255, &mut intf);
    assert_eq!(timer.read(0xFF04), 0);
    timer.tick(1, &mut intf);
    assert_eq!(timer.read(0xFF04), 1);
    timer.tick(256 * 256, &mut intf);
    assert_eq!(timer.read(0xFF04), 1);
}

#[test]
fn changing_the_period_reloads_tima() {
    let mut intf = Interrupt::default();
    let mut timer = Timer::new();
    timer.write(0xFF06, 0x80);
    timer.write(0xFF05, 0x10);
    timer.write(0xFF07, 0x04);
    assert_eq!(timer.read(0xFF05), 0x10);
    timer.tick(1000, &mut intf);
    timer.write(0xFF07, 0x05);
    assert_eq!(timer.read(0xFF05), 0x80);
    timer.tick(15, &mut intf);
    assert_eq!(timer.read(0xFF05), 0x80);
    timer.tick(1, &mut intf);
    assert_eq!(timer.read(0xFF05), 0x81);
    assert_eq!(timer.read(0xFF06), 0x80);
    assert_eq!(timer.read(0xFF08), 0xFF);
    timer.write(0xFF08, 0x12);
    assert_eq!(timer.read(0xFF05), 0x81);
}

#[test]
fn interrupt_latches() {
    let mut intf = Interrupt::default();
    assert_eq!(intf.read(0xFFFF), 0);
    assert_eq!(intf.read(0xFF0F), 0);
    assert_eq!(intf.read(0xFF00), 0xFF);
    intf.write(0xFFFF, 0x15);
    intf.write(0xFF0F, 0x0A);
    intf.write(0xFF10, 0xFF);
    assert_eq!(intf.read(0xFFFF), 0x15);
    assert_eq!(intf.read(0xFF0F), 0x0A);
    assert!(intf.is_raised(InterruptFlag::LCDC));
    assert!(intf.is_raised(InterruptFlag::Serial));
    assert!(!intf.is_raised(InterruptFlag::VBlank));
    assert_eq!(intf.pending(), None);
    intf.raise(InterruptFlag::Joypad);
    assert_eq!(intf.read(0xFF0F), 0x1A);
    assert_eq!(intf.pending(), Some(InterruptFlag::Joypad));
    intf.raise(InterruptFlag::VBlank);
    assert_eq!(intf.pending(), Some(InterruptFlag::VBlank));
    intf.clear(InterruptFlag::VBlank);
    intf.clear(InterruptFlag::LCDC);
    assert_eq!(intf.read(0xFF0F), 0x18);
    intf.raise(InterruptFlag::Timer);
    assert_eq!(intf.pending(), Some(InterruptFlag::Timer));
}

#[test]
fn interrupt_flags_and_vectors() {
    let flags = [
        (1u8, InterruptFlag::VBlank, 0x40u16),
        (2, InterruptFlag::LCDC, 0x48),
        (4, InterruptFlag::Timer, 0x50),
        (8, InterruptFlag::Serial, 0x58),
        (16, InterruptFlag::Joypad, 0x60),
    ];
    for (mask, flag, vector) in flags {
        assert_eq!(InterruptFlag::from_u8(mask), flag);
        assert_eq!(flag.mask(), mask);
        assert_eq!(InterruptSource::from_flag(flag).vector(), vector);
    }
}

#[test]
fn joypad_masks() {
    assert_eq!(GBInput::BtnA.into_mask(), 1);
    assert_eq!(GBInput::BtnB.into_mask(), 2);
    assert_eq!(GBInput::BtnSelect.into_mask(), 4);
    assert_eq!(GBInput::BtnStart.into_mask(), 8);
    assert_eq!(GBInput::DPadRight.into_mask(), 1);
    assert_eq!(GBInput::DPadLeft.into_mask(), 2);
    assert_eq!(GBInput::DPadUp.into_mask(), 4);
    assert_eq!(GBInput::DPadDown.into_mask(), 8);
    assert!(GBInput::DPadUp.is_dpad());
    assert!(!GBInput::BtnStart.is_dpad());
}

#[test]
fn joypad_groups() {
    let mut intf = Interrupt::default();
    let mut joypad = Joypad::new();
    joypad.write(0x10);
    assert_eq!(joypad.read(), 0x1F);
    joypad.btn_down(GBInput::DPadLeft, &mut intf);
    assert!(intf.is_raised(InterruptFlag::Joypad));
    assert_eq!(joypad.read(), 0x1D);
    joypad.write(0x20);
    assert_eq!(joypad.read(), 0x2F);
    joypad.btn_down(GBInput::BtnStart, &mut intf);
    joypad.btn_down(GBInput::BtnA, &mut intf);
    assert_eq!(joypad.read(), 0x26);
    joypad.write(0x30);
    assert_eq!(joypad.read(), 0x3F);
    joypad.write(0x00);
    assert_eq!(joypad.read(), 0x04);
    joypad.btn_up(GBInput::BtnA);
    joypad.btn_up(GBInput::DPadLeft);
    joypad.write(0x20);
    assert_eq!(joypad.read(), 0x27);
    joypad.write(0xFF);
    assert_eq!(joypad.read(), 0x3F);
}
