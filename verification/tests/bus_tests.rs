use emu::bus::{Bus, MemRegister};
use emu::cart::create_cart;
use emu::interrupt::InterruptFlag;
use emu::joypad::GBInput;

fn bus_with(kind: u8, ram_code: u8) -> Box<Bus> {
    let mut rom = vec![0u8; 0x8000];
    for (i, byte) in rom.iter_mut().enumerate() {
        *byte = (i % 251) as u8;
    }
    rom[0x147] = kind;
    rom[0x148] = 0;
    rom[0x149] = ram_code;
    Box::new(Bus::new(create_cart(rom).unwrap()))
}

#[test]
fn every_region_finds_its_owner() {
    let mut bus = bus_with(0x03, 2);
    // cartridge ROM
    assert_eq!(bus.read_byte(0x0000), 0);
    assert_eq!(bus.read_byte(0x0100), (0x100 % 251) as u8);
    assert_eq!(bus.read_byte(0x7FFF), (0x7FFF % 251) as u8);
    // video RAM
    bus.write_byte(0x8000, 0x11);
    bus.write_byte(0x9FFF, 0x12);
    assert_eq!(bus.read_byte(0x8000), 0x11);
    assert_eq!(bus.ppu.read(0x9FFF), 0x12);
    // cartridge RAM
    assert_eq!(bus.read_byte(0xA000), 0xFF);
    bus.write_byte(0x0000, 0x0A);
    bus.write_byte(0xA000, 0x21);
    bus.write_byte(0xBFFF, 0x22);
    assert_eq!(bus.read_byte(0xA000), 0x21);
    assert_eq!(bus.read_byte(0xBFFF), 0x22);
    // work RAM
    bus.write_byte(0xC000, 0x31);
    bus.write_byte(0xDFFF, 0x32);
    assert_eq!(bus.read_byte(0xC000), 0x31);
    assert_eq!(bus.read_byte(0xDFFF), 0x32);
    // object attribute memory
    bus.write_byte(0xFE00, 0x41);
    bus.write_byte(0xFE9F, 0x42);
    assert_eq!(bus.read_byte(0xFE00), 0x41);
    assert_eq!(bus.read_byte(0xFE9F), 0x42);
    // high RAM
    bus.write_byte(0xFF80, 0x51);
    bus.write_byte(0xFFFE, 0x52);
    assert_eq!(bus.read_byte(0xFF80), 0x51);
    assert_eq!(bus.read_byte(0xFFFE), 0x52);
    // interrupt latches
    bus.write_byte(0xFFFF, 0x1F);
    bus.write_byte(0xFF0F, 0x05);
    assert_eq!(bus.read_byte(0xFFFF), 0x1F);
    assert_eq!(bus.intf.read(0xFF0F), 0x05);
    // timer
    bus.write_byte(0xFF06, 0x61);
    assert_eq!(bus.read_byte(0xFF06), 0x61);
    assert_eq!(bus.timer.read(0xFF06), 0x61);
    // pixel unit
    bus.write_byte(0xFF42, 0x71);
    assert_eq!(bus.read_byte(0xFF42), 0x71);
    assert_eq!(bus.read_byte(0xFF40), 0x91);
    // audio unit
    bus.write_byte(0xFF25, 0x81);
    assert_eq!(bus.read_byte(0xFF25), 0x81);
    bus.write_byte(0xFF30, 0x82);
    assert_eq!(bus.read_byte(0xFF30), 0x82);
    // joypad
    bus.write_byte(0xFF00, 0x20);
    assert_eq!(bus.read_byte(0xFF00), 0x2F);
    // serial
    bus.write_byte(0xFF01, 0x91);
    bus.write_byte(0xFF02, 0x81);
    assert_eq!(bus.read_byte(0xFF01), 0x91);
    assert_eq!(bus.read_byte(0xFF02), 0x81);
}

#[test]
fn addresses_without_an_owner_are_open_bus() {
    let mut bus = bus_with(0x00, 0);
    for addr in [0xE000u16, 0xFDFF, 0xFEA0, 0xFEFF, 0xFF03, 0xFF08, 0xFF27, 0xFF4C, 0xFF7F] {
        assert_eq!(bus.read_byte(addr), 0xFF);
        bus.write_byte(addr, 0x00);
        assert_eq!(bus.read_byte(addr), 0xFF);
    }
    // a cartridge without RAM
    bus.write_byte(0xA000, 0x12);
    assert_eq!(bus.read_byte(0xA000), 0xFF);
    // ROM cannot be written
    bus.write_byte(0x0100, 0x00);
    assert_eq!(bus.read_byte(0x0100), (0x100 % 251) as u8);
}

#[test]
fn memory_starts_as_0xff() {
    let bus = bus_with(0x00, 0);
    for addr in [0xC000u16, 0xC123, 0xDFFF, 0xFF80, 0xFFFE] {
        assert_eq!(bus.read_byte(addr), 0xFF);
    }
    assert_eq!(bus.read_byte(0x8000), 0x00);
    assert_eq!(bus.read_byte(0xFE00), 0x00);
}

#[test]
fn named_registers() {
    let mut bus = bus_with(0x00, 0);
    let registers = [
        (MemRegister::IE, 0xFFFFu16),
        (MemRegister::IF, 0xFF0F),
        (MemRegister::LY, 0xFF44),
        (MemRegister::LYC, 0xFF45),
        (MemRegister::SCY, 0xFF42),
        (MemRegister::SCX, 0xFF43),
        (MemRegister::WX, 0xFF4B),
        (MemRegister::WY, 0xFF4A),
        (MemRegister::STAT, 0xFF41),
        (MemRegister::LCDC, 0xFF40),
        (MemRegister::BGP, 0xFF47),
    ];
    for (register, addr) in registers {
        assert_eq!(register.address(), addr);
    }
    bus.write_register(MemRegister::SCX, 0x33);
    assert_eq!(bus.read_register(MemRegister::SCX), 0x33);
    assert_eq!(bus.read_byte(0xFF43), 0x33);
    bus.write_register(MemRegister::BGP, 0xE4);
    assert_eq!(bus.read_register(MemRegister::BGP), 0xE4);
    assert_eq!(bus.read_register(MemRegister::LY), 0);
}

#[test]
fn oam_dma_copies_160_bytes() {
    let mut bus = bus_with(0x00, 0);
    for i in 0..0x100u16 {
        bus.write_byte(0xC100 + i, (i as u8) ^ 0x5A);
    }
    bus.write_byte(0xFE9F, 0x77);
    bus.write_byte(0xFF46, 0xC1);
    assert_eq!(bus.read_byte(0xFF46), 0xC1);
    for i in 0..0xA0u16 {
        assert_eq!(bus.read_byte(0xFE00 + i), (i as u8) ^ 0x5A);
    }
    // the source is untouched and nothing else was written
    assert_eq!(bus.read_byte(0xC100), 0x5A);
    assert_eq!(bus.read_byte(0xC1A0), 0xA0 ^ 0x5A);
    assert_eq!(bus.read_byte(0xFEA0), 0xFF);
    // from ROM
    bus.dma_transfer(0x02);
    for i in 0..0xA0u16 {
        assert_eq!(bus.read_byte(0xFE00 + i), ((0x200 + i as usize) % 251) as u8);
    }
    assert_eq!(bus.read_byte(0xFF46), 0x02);
}

#[test]
fn boot_rom_overlay() {
    let mut bus = bus_with(0x00, 0);
    let mut boot = vec![0xAAu8; 256];
    boot[0] = 0x31;
    boot[255] = 0x50;
    bus.load_bootrom(boot, true);
    assert_eq!(bus.read_byte(0x0000), 0x31);
    assert_eq!(bus.read_byte(0x0080), 0xAA);
    assert_eq!(bus.read_byte(0x00FF), 0x50);
    assert_eq!(bus.read_byte(0x0100), (0x100 % 251) as u8);
    // writes below 0x0100 still reach the cartridge
    bus.write_byte(0x0000, 0x0A);
    assert_eq!(bus.read_byte(0x0000), 0x31);
    // any write to 0xFF50 switches the overlay off
    bus.write_byte(0xFF50, 0x01);
    assert_eq!(bus.read_byte(0x0000), 0x00);
    assert_eq!(bus.read_byte(0x00FF), 0xFF % 251);
    bus.write_byte(0xFF50, 0x00);
    assert_eq!(bus.read_byte(0x0000), 0x00);
    assert_eq!(bus.read_byte(0xFF50), 0xFF);
    // a boot image that is loaded but not enabled stays out of the way
    let mut other = bus_with(0x00, 0);
    other.load_bootrom(vec![0xAA; 256], false);
    assert_eq!(other.read_byte(0x0000), 0x00);
    // a short boot image reads as open bus behind its end
    other.load_bootrom(vec![0xAA; 16], true);
    assert_eq!(other.read_byte(0x000F), 0xAA);
    assert_eq!(other.read_byte(0x0010), 0xFF);
}

#[test]
fn buttons_reach_the_joypad_and_request_an_interrupt() {
    let mut bus = bus_with(0x00, 0);
    bus.write_byte(0xFF00, 0x10);
    bus.btn_down(GBInput::DPadDown);
    assert_eq!(bus.read_byte(0xFF00), 0x17);
    assert!(bus.intf.is_raised(InterruptFlag::Joypad));
    assert_eq!(bus.read_byte(0xFF0F), 0x10);
    bus.btn_up(GBInput::DPadDown);
    assert_eq!(bus.read_byte(0xFF00), 0x1F);
}

#[test]
fn tick_feeds_timer_audio_and_pixels() {
    let mut bus = bus_with(0x00, 0);
    let mut sink = Vec::new();
    bus.write_byte(0xFF07, 0x05);
    bus.tick(456, &mut sink);
    assert_eq!(bus.read_byte(0xFF04), 1);
    assert_eq!(bus.read_byte(0xFF05), 28);
    assert_eq!(bus.read_byte(0xFF44), 1);
    assert_eq!(bus.apu.buffer_pos, 10);
    bus.tick(153 * 456 + 144 * 456, &mut sink);
    assert!(bus.intf.is_raised(InterruptFlag::VBlank));
    assert_eq!(bus.read_byte(0xFF44), 144);
    assert!(!sink.is_empty());
    assert_eq!(sink.len() % 1024, 0);
}

#[test]
fn clearing_the_memory() {
    let mut bus = bus_with(0x00, 0);
    bus.write_byte(0x8000, 0x12);
    bus.clear_test_mem();
    for addr in [0xC000u16, 0xD123, 0xDFFF, 0xFF80, 0xFFFE] {
        assert_eq!(bus.read_byte(addr), 0x00);
    }
    assert_eq!(bus.read_byte(0x8000), 0x12);
}
