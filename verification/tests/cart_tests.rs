use emu::cart::mbc0::MBC0;
use emu::cart::mbc1::MBC1;
use emu::cart::mbc2::MBC2;
use emu::cart::mbc3::MBC3;
use emu::cart::mbc5::MBC5;
use emu::cart::{create_cart, ram_size, rom_bank_count, Cartridge, LoadError, MBC};

/// An image of `banks` ROM banks in which every byte holds the number of its
/// bank, with the given cartridge type and size codes in the header.
fn image(kind: u8, rom_code: u8, ram_code: u8, banks: usize) -> Vec<u8> {
    let mut rom = Vec::with_capacity(banks * 0x4000);
    for bank in 0..banks {
        for _ in 0..0x4000 {
            rom.push(bank as u8);
        }
    }
    rom[0x147] = kind;
    rom[0x148] = rom_code;
    rom[0x149] = ram_code;
    rom
}

#[test]
fn header_tables() {
    assert_eq!(rom_bank_count(0), 2);
    assert_eq!(rom_bank_count(1), 4);
    assert_eq!(rom_bank_count(5), 64);
    assert_eq!(rom_bank_count(8), 512);
    assert_eq!(ram_size(0), 0);
    assert_eq!(ram_size(1), 0);
    assert_eq!(ram_size(2), 8 * 1024);
    assert_eq!(ram_size(3), 32 * 1024);
    assert_eq!(ram_size(4), 128 * 1024);
    assert_eq!(ram_size(5), 64 * 1024);
}

#[test]
fn create_cart_selects_the_controller() {
    assert!(matches!(create_cart(image(0x00, 0, 0, 2)), Ok(Cartridge::Mbc0(_))));
    for kind in [0x01, 0x02, 0x03] {
        assert!(matches!(create_cart(image(kind, 1, 2, 4)), Ok(Cartridge::Mbc1(_))));
    }
    for kind in [0x05, 0x06] {
        assert!(matches!(create_cart(image(kind, 1, 0, 4)), Ok(Cartridge::Mbc2(_))));
    }
    for kind in [0x0F, 0x10, 0x11, 0x12, 0x13] {
        assert!(matches!(create_cart(image(kind, 1, 3, 4)), Ok(Cartridge::Mbc3(_))));
    }
    for kind in [0x19, 0x1A, 0x1B, 0x1C, 0x1D, 0x1E] {
        assert!(matches!(create_cart(image(kind, 1, 3, 4)), Ok(Cartridge::Mbc5(_))));
    }
}

#[test]
fn create_cart_refuses_what_it_cannot_load() {
    assert!(matches!(create_cart(Vec::new()), Err(LoadError::Truncated)));
    assert!(matches!(create_cart(vec![0u8; 0x14F]), Err(LoadError::Truncated)));
    assert!(matches!(create_cart(image(0x04, 0, 0, 2)), Err(LoadError::UnsupportedMbc(0x04))));
    assert!(matches!(create_cart(image(0xFF, 0, 0, 2)), Err(LoadError::UnsupportedMbc(0xFF))));
    assert!(matches!(create_cart(image(0x20, 0, 0, 2)), Err(LoadError::UnsupportedMbc(0x20))));
    // the header declares four banks, the image holds two
    assert!(matches!(create_cart(image(0x01, 1, 0, 2)), Err(LoadError::Truncated)));
    // a size code beyond the table
    assert!(matches!(create_cart(image(0x01, 9, 0, 2)), Err(LoadError::Truncated)));
    // the unsupported type is reported before the missing banks
    assert!(matches!(create_cart(image(0x04, 1, 0, 2)), Err(LoadError::UnsupportedMbc(0x04))));
    // a header alone is too short for the two banks of the smallest cartridge
    assert!(matches!(create_cart(vec![0u8; 0x150]), Err(LoadError::Truncated)));
}

#[test]
fn mbc0_maps_rom_as_it_is() {
    let mut rom = image(0x00, 0, 0, 2);
    rom[0x1234] = 0xAB;
    rom[0x7FFF] = 0xCD;
    let mut cart = MBC0::new(rom);
    assert_eq!(cart.read(0x1234), 0xAB);
    assert_eq!(cart.read(0x7FFF), 0xCD);
    assert_eq!(cart.read(0x4000), 1);
    assert_eq!(cart.read(0xA000), 0xFF);
    cart.write(0x1234, 0x00);
    cart.write(0x2000, 0x01);
    assert_eq!(cart.read(0x1234), 0xAB);
    assert!(!cart.is_battery_backed());
    assert!(cart.dump_sram().is_empty());
    cart.load_sram(vec![1, 2, 3]);
    assert!(cart.dump_sram().is_empty());
}

#[test]
fn mbc1_bank_zero_reads_as_bank_one() {
    let mut cart = MBC1::new(image(0x01, 2, 0, 8), 0);
    assert_eq!(cart.read(0x0000), 0);
    assert_eq!(cart.read(0x4000), 1);
    cart.write(0x2000, 0x03);
    assert_eq!(cart.read(0x4000), 3);
    assert_eq!(cart.read(0x7FFF), 3);
    for write in [0x00u8, 0x20, 0x40, 0xE0] {
        cart.write(0x2000, 0x05);
        assert_eq!(cart.read(0x4000), 5);
        cart.write(0x3FFF, write);
        assert_eq!(cart.read(0x4000), 1);
        assert_eq!(cart.read(0x5ABC), 1);
        assert_eq!(cart.read(0x0000), 0);
    }
}

#[test]
fn mbc1_bank_numbers_wrap_around() {
    let mut cart = MBC1::new(image(0x01, 1, 0, 4), 0);
    cart.write(0x2000, 0x07);
    assert_eq!(cart.read(0x4000), 3);
    cart.write(0x2000, 0x04);
    assert_eq!(cart.read(0x4000), 0);
}

#[test]
fn mbc1_upper_bits_and_banking_mode() {
    let mut cart = MBC1::new(image(0x01, 5, 0, 64), 0);
    cart.write(0x2000, 0x02);
    cart.write(0x4000, 0x01);
    assert_eq!(cart.read(0x4000), 0x22);
    assert_eq!(cart.read(0x0000), 0);
    cart.write(0x6000, 0x01);
    assert_eq!(cart.read(0x0000), 0x20);
    cart.write(0x6000, 0x00);
    assert_eq!(cart.read(0x0000), 0);
}

#[test]
fn mbc1_ram_enable_and_banks() {
    let mut cart = MBC1::new(image(0x03, 1, 3, 4), 32 * 1024);
    assert!(cart.is_battery_backed());
    assert_eq!(cart.read(0xA000), 0xFF);
    cart.write(0xA000, 0x11);
    cart.write(0x0000, 0x0A);
    assert_eq!(cart.read(0xA000), 0x00);
    cart.write(0xA000, 0x11);
    assert_eq!(cart.read(0xA000), 0x11);
    // bank 2 in banking mode
    cart.write(0x6000, 0x01);
    cart.write(0x4000, 0x02);
    assert_eq!(cart.read(0xA000), 0x00);
    cart.write(0xBFFF, 0x22);
    assert_eq!(cart.read(0xBFFF), 0x22);
    cart.write(0x6000, 0x00);
    assert_eq!(cart.read(0xA000), 0x11);
    cart.write(0x0000, 0x00);
    assert_eq!(cart.read(0xA000), 0xFF);
    let sram = cart.dump_sram();
    assert_eq!(sram.len(), 32 * 1024);
    assert_eq!(sram[0], 0x11);
    assert_eq!(sram[2 * 0x2000 + 0x1FFF], 0x22);
}

#[test]
fn mbc1_without_ram() {
    let mut cart = MBC1::new(image(0x01, 1, 0, 4), 0);
    assert!(!cart.is_battery_backed());
    cart.write(0x0000, 0x0A);
    cart.write(0xA000, 0x55);
    assert_eq!(cart.read(0xA000), 0xFF);
    assert!(cart.dump_sram().is_empty());
}

#[test]
fn mbc2_ram_is_four_bits_wide() {
    let mut cart = MBC2::new(image(0x06, 1, 0, 4));
    assert!(cart.is_battery_backed());
    assert_eq!(cart.read(0xA000), 0xFF);
    cart.write(0x0000, 0x0A);
    cart.write(0xA000, 0x35);
    assert_eq!(cart.read(0xA000), 0xF5);
    // only nine address bits reach the RAM
    assert_eq!(cart.read(0xA200), 0xF5);
    assert_eq!(cart.read(0xBE00), 0xF5);
    cart.write(0xA3FF, 0x0C);
    assert_eq!(cart.read(0xA1FF), 0xFC);
    // bit 8 of the address selects the bank register
    cart.write(0x0100, 0x03);
    assert_eq!(cart.read(0x4000), 3);
    cart.write(0x2100, 0x00);
    assert_eq!(cart.read(0x4000), 1);
    cart.write(0x0000, 0x00);
    assert_eq!(cart.read(0xA000), 0xFF);
    assert_eq!(cart.dump_sram().len(), 512);
    assert!(!MBC2::new(image(0x05, 1, 0, 4)).is_battery_backed());
}

#[test]
fn mbc3_banks() {
    let mut cart = MBC3::new(image(0x13, 6, 3, 128), 32 * 1024);
    assert!(cart.is_battery_backed());
    assert_eq!(cart.read(0x4000), 1);
    cart.write(0x2000, 0x7F);
    assert_eq!(cart.read(0x4000), 0x7F);
    cart.write(0x2000, 0x80);
    assert_eq!(cart.read(0x4000), 1);
    cart.write(0x0000, 0x0A);
    cart.write(0x4000, 0x03);
    cart.write(0xA123, 0x77);
    cart.write(0x4000, 0x00);
    assert_eq!(cart.read(0xA123), 0x00);
    cart.write(0x4000, 0x03);
    assert_eq!(cart.read(0xA123), 0x77);
    assert!(!MBC3::new(image(0x11, 1, 0, 4), 0).is_battery_backed());
    assert!(MBC3::new(image(0x0F, 1, 0, 4), 0).is_battery_backed());
}

#[test]
fn mbc5_has_nine_bank_bits_and_no_aliasing() {
    let mut rom = image(0x1B, 8, 3, 512);
    for bank in 0..512usize {
        rom[bank * 0x4000 + 1] = (bank >> 8) as u8;
    }
    rom[0x147] = 0x1B;
    let mut cart = MBC5::new(rom, 32 * 1024);
    assert!(cart.is_battery_backed());
    assert_eq!(cart.read(0x4000), 1);
    cart.write(0x2000, 0x00);
    assert_eq!(cart.read(0x4000), 0);
    cart.write(0x2000, 0x34);
    cart.write(0x3000, 0x01);
    assert_eq!(cart.read(0x4000), 0x34);
    assert_eq!(cart.read(0x4001), 0x01);
    cart.write(0x3000, 0x02);
    assert_eq!(cart.read(0x4001), 0x00);
    cart.write(0x0000, 0x0A);
    cart.write(0x4000, 0x03);
    cart.write(0xA000, 0x99);
    assert_eq!(cart.dump_sram()[3 * 0x2000], 0x99);
}

#[test]
fn save_round_trip() {
    let carts: Vec<(u8, u8)> = vec![(0x03, 3), (0x06, 0), (0x13, 3), (0x1B, 3), (0x1E, 2)];
    for (kind, ram_code) in carts {
        let mut cart = create_cart(image(kind, 1, ram_code, 4)).unwrap();
        assert!(cart.is_battery_backed());
        cart.write(0x0000, 0x0A);
        let mut value = 1u8;
        for addr in [0xA000u16, 0xA001, 0xA1FF, 0xA0FF] {
            cart.write(addr, value);
            value = value.wrapping_mul(7).wrapping_add(3);
        }
        let saved = cart.dump_sram();
        let mut fresh = create_cart(image(kind, 1, ram_code, 4)).unwrap();
        assert_ne!(fresh.dump_sram(), saved);
        fresh.load_sram(saved.clone());
        assert_eq!(fresh.dump_sram(), saved);
        fresh.write(0x0000, 0x0A);
        for addr in [0xA000u16, 0xA001, 0xA1FF, 0xA0FF] {
            assert_eq!(fresh.read(addr), cart.read(addr));
        }
    }
}

#[test]
fn a_save_file_of_the_wrong_size_does_no_harm() {
    let mut cart = create_cart(image(0x03, 1, 3, 4)).unwrap();
    cart.load_sram(vec![0x42; 16]);
    cart.write(0x0000, 0x0A);
    assert_eq!(cart.read(0xA000), 0x42);
    assert_eq!(cart.read(0xA010), 0xFF);
    cart.write(0xA010, 0x01);
    assert_eq!(cart.dump_sram(), vec![0x42; 16]);
}

#[test]
fn reads_beyond_the_image_are_open_bus() {
    let mut rom = vec![0u8; 0x8000];
    rom[0x147] = 0x01;
    rom[0x148] = 0x01;
    let mut cart = MBC1::new(rom, 0);
    cart.write(0x2000, 0x03);
    assert_eq!(cart.read(0x4000), 0xFF);
    assert_eq!(cart.read(0x8000), 0xFF);
    assert_eq!(cart.read(0xC000), 0xFF);
}
