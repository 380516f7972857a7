use gb7_core::cartridge::{
    load_cartridge, CartMemory, Cartridge, CartridgeError, MbcKind, MBC1, MBC3, NoMBC,
};

fn image(cart_type: u8, rom_code: u8, ram_code: u8) -> Vec<u8> {
    let mut rom = vec![0u8; 0x8000usize << rom_code];
    rom[0x147] = cart_type;
    rom[0x148] = rom_code;
    rom[0x149] = ram_code;
    let banks = rom.len() / 0x4000;
    for bank in 0..banks {
        rom[bank * 0x4000] = 0x40 + bank as u8;
        rom[bank * 0x4000 + 0x3FFF] = 0x80 + bank as u8;
    }
    rom
}

fn loaded(cart_type: u8, rom_code: u8, ram_code: u8) -> Cartridge {
    match load_cartridge(&image(cart_type, rom_code, ram_code)) {
        Ok(cart) => cart,
        Err(e) => panic!("image refused: {:?}", e),
    }
}

fn error_of(rom: &Vec<u8>) -> Option<CartridgeError> {
    match load_cartridge(rom) {
        Ok(_) => None,
        Err(e) => Some(e),
    }
}

#[test]
fn cartridge_type_selects_the_controller() {
    assert_eq!(loaded(0x00, 0, 0).kind(), MbcKind::NoMbc);
    for t in 0x01..=0x03u8 {
        assert_eq!(loaded(t, 0, 0).kind(), MbcKind::Mbc1);
    }
    for t in 0x0F..=0x13u8 {
        assert_eq!(loaded(t, 0, 0).kind(), MbcKind::Mbc3);
    }
}

#[test]
fn unknown_cartridge_types_are_refused() {
    for t in [0x04u8, 0x05, 0x0E, 0x14, 0x19, 0xFF] {
        assert_eq!(error_of(&image(t, 0, 0)), Some(CartridgeError::UnknownCartridgeType(t)));
    }
}

#[test]
fn rom_length_must_match_the_size_code() {
    let mut rom = image(0x00, 0, 0);
    rom[0x148] = 1;
    assert_eq!(error_of(&rom), Some(CartridgeError::RomSizeMismatch));
    let mut rom = image(0x00, 1, 0);
    rom[0x148] = 0;
    assert_eq!(error_of(&rom), Some(CartridgeError::RomSizeMismatch));
    let mut rom = image(0x00, 0, 0);
    rom.push(0);
    assert_eq!(error_of(&rom), Some(CartridgeError::RomSizeMismatch));
    let mut rom = image(0x00, 0, 0);
    rom[0x148] = 200;
    assert_eq!(error_of(&rom), Some(CartridgeError::RomSizeMismatch));
}

#[test]
fn images_without_a_header_are_refused() {
    assert_eq!(error_of(&Vec::new()), Some(CartridgeError::RomSizeMismatch));
    assert_eq!(error_of(&vec![0u8; 0x14F]), Some(CartridgeError::RomSizeMismatch));
    assert_eq!(error_of(&vec![0u8; 0x150]), Some(CartridgeError::RomSizeMismatch));
}

#[test]
fn rom_sizes_double_with_the_code() {
    for code in 0..=5u8 {
        let rom = image(0x01, code, 0);
        assert_eq!(rom.len(), 0x8000usize << code);
        assert!(load_cartridge(&rom).is_ok());
    }
}

#[test]
fn unknown_ram_size_codes_are_refused() {
    for code in [6u8, 7, 0x80, 0xFF] {
        assert_eq!(error_of(&image(0x01, 0, code)), Some(CartridgeError::UnknownRamSize(code)));
    }
    for code in 0..=5u8 {
        assert!(load_cartridge(&image(0x01, 0, code)).is_ok());
    }
}

#[test]
fn the_type_is_checked_first_then_the_length_then_the_ram_code() {
    let mut rom = image(0x77, 0, 9);
    rom[0x148] = 3;
    assert_eq!(error_of(&rom), Some(CartridgeError::UnknownCartridgeType(0x77)));
    assert_eq!(error_of(&image(0x77, 0, 9)), Some(CartridgeError::UnknownCartridgeType(0x77)));
    assert_eq!(error_of(&image(0x77, 0, 2)), Some(CartridgeError::UnknownCartridgeType(0x77)));
    let mut rom = image(0x04, 0, 0);
    rom.push(0);
    assert_eq!(error_of(&rom), Some(CartridgeError::UnknownCartridgeType(0x04)));
    let mut rom = image(0x01, 0, 9);
    rom[0x148] = 3;
    assert_eq!(error_of(&rom), Some(CartridgeError::RomSizeMismatch));
    let mut rom = image(0x13, 1, 2);
    rom[0x148] = 0;
    assert_eq!(error_of(&rom), Some(CartridgeError::RomSizeMismatch));
    assert_eq!(error_of(&image(0x01, 0, 9)), Some(CartridgeError::UnknownRamSize(9)));
    assert_eq!(error_of(&image(0x00, 0, 9)), Some(CartridgeError::UnknownRamSize(9)));
}

#[test]
fn an_image_too_short_for_a_header_is_refused_for_its_length() {
    let mut rom = vec![0u8; 0x14F];
    rom[0x147] = 0x77;
    assert_eq!(error_of(&rom), Some(CartridgeError::RomSizeMismatch));
    rom.push(0);
    assert_eq!(error_of(&rom), Some(CartridgeError::UnknownCartridgeType(0x77)));
}

#[test]
fn fresh_cartridges_are_in_order_with_bank_one_selected() {
    for t in [0x00u8, 0x01, 0x13] {
        let cart = loaded(t, 1, 3);
        assert!(cart.is_wf());
        assert_eq!(cart.active_rom_bank(), 1);
        assert_eq!(cart.active_ram_bank(), 0);
    }
}

#[test]
fn no_mbc_reads_the_rom_and_swallows_writes() {
    let mut cart = loaded(0x00, 0, 0);
    assert_eq!(cart.read(0x0000), 0x40);
    assert_eq!(cart.read(0x3FFF), 0x80);
    assert_eq!(cart.read(0x4000), 0x41);
    assert_eq!(cart.read(0x7FFF), 0x81);
    cart.write(0x2000, 0x05);
    cart.write(0x0000, 0x0A);
    cart.write(0xA000, 0x99);
    assert_eq!(cart.read(0x4000), 0x41);
    assert_eq!(cart.read(0x0000), 0x40);
    assert_eq!(cart.read(0xA000), 0xFF);
    assert_eq!(cart.read(0xBFFF), 0xFF);
}

#[test]
fn no_mbc_built_by_hand_reads_past_its_end_as_ff() {
    let cart = NoMBC::new(&vec![1u8, 2, 3]);
    assert_eq!(cart.read(0), 1);
    assert_eq!(cart.read(2), 3);
    assert_eq!(cart.read(3), 0xFF);
    assert_eq!(cart.read(0x7FFF), 0xFF);
}

#[test]
fn mbc1_bank_zero_becomes_bank_one() {
    let rom = image(0x01, 1, 0);
    let mut cart = loaded(0x01, 1, 0);
    cart.write(0x2000, 0x00);
    assert_eq!(cart.active_rom_bank(), 1);
    assert_eq!(cart.read(0x4000), rom[0x4000]);
    cart.write(0x3FFF, 0x20);
    assert_eq!(cart.active_rom_bank(), 1);
    cart.write(0x2000, 0xE0);
    assert_eq!(cart.active_rom_bank(), 1);
    assert_eq!(cart.read(0x7FFF), rom[0x7FFF]);
}

#[test]
fn mbc1_switches_the_upper_window() {
    let rom = image(0x01, 1, 0);
    let mut cart = loaded(0x01, 1, 0);
    cart.write(0x2000, 0x02);
    assert_eq!(cart.active_rom_bank(), 2);
    assert_eq!(cart.read(0x4000), rom[0x8000]);
    assert_eq!(cart.read(0x7FFF), rom[0xBFFF]);
    cart.write(0x2000, 0x03);
    assert_eq!(cart.read(0x4000), rom[0xC000]);
    assert_eq!(cart.read(0x0000), rom[0x0000]);
    assert_eq!(cart.read(0x3FFF), rom[0x3FFF]);
}

#[test]
fn mbc1_keeps_the_rom_bank_at_least_one_whatever_is_written() {
    let mut cart = loaded(0x01, 5, 3);
    for addr in [0x0000u16, 0x2000, 0x4000, 0x6000, 0xA000] {
        for val in 0..=255u8 {
            cart.write(addr, val);
            assert!(cart.active_rom_bank() >= 1);
            assert!(cart.is_wf());
        }
    }
}

#[test]
fn mbc1_reads_past_the_rom_as_ff() {
    let mut cart = loaded(0x01, 1, 0);
    cart.write(0x2000, 0x1F);
    assert_eq!(cart.active_rom_bank(), 0x1F);
    assert_eq!(cart.read(0x4000), 0xFF);
    assert_eq!(cart.read(0x7FFF), 0xFF);
}

#[test]
fn mbc1_upper_bank_bits_need_a_large_rom() {
    let mut small = loaded(0x01, 1, 0);
    small.write(0x4000, 0x20);
    assert_eq!(small.active_rom_bank(), 1);
    let rom = image(0x01, 5, 0);
    let mut large = loaded(0x01, 5, 0);
    large.write(0x4000, 0x20);
    assert_eq!(large.active_rom_bank(), 0x21);
    assert_eq!(large.read(0x4000), rom[0x21 * 0x4000]);
    large.write(0x2000, 0x02);
    assert_eq!(large.active_rom_bank(), 0x22);
    large.write(0x4000, 0x60);
    assert_eq!(large.active_rom_bank(), 0x62);
    assert_eq!(large.read(0x4000), 0xFF);
    large.write(0x4000, 0x03);
    assert_eq!(large.active_rom_bank(), 0x02);
}

#[test]
fn mbc1_ram_takes_writes_only_while_enabled() {
    let mut cart = loaded(0x03, 0, 2);
    cart.write(0xA000, 0x11);
    assert_eq!(cart.read(0xA000), 0x00);
    cart.write(0x0000, 0x0A);
    cart.write(0xA000, 0x55);
    cart.write(0xBFFF, 0x66);
    assert_eq!(cart.read(0xA000), 0x55);
    assert_eq!(cart.read(0xBFFF), 0x66);
    cart.write(0x1FFF, 0x00);
    cart.write(0xA000, 0x77);
    assert_eq!(cart.read(0xA000), 0x55);
    cart.write(0x0000, 0x3A);
    cart.write(0xA000, 0x88);
    assert_eq!(cart.read(0xA000), 0x88);
}

#[test]
fn mbc1_ram_banks_need_the_ram_banking_mode_and_32k() {
    let mut cart = loaded(0x03, 0, 3);
    cart.write(0x0000, 0x0A);
    cart.write(0xA000, 0x10);
    cart.write(0x4000, 0x02);
    assert_eq!(cart.active_ram_bank(), 0);
    cart.write(0x6000, 0x01);
    cart.write(0x4000, 0x02);
    assert_eq!(cart.active_ram_bank(), 2);
    assert_eq!(cart.read(0xA000), 0x00);
    cart.write(0xA000, 0x12);
    cart.write(0x4000, 0x07);
    assert_eq!(cart.active_ram_bank(), 3);
    cart.write(0x4000, 0x00);
    assert_eq!(cart.read(0xA000), 0x10);
    cart.write(0x4000, 0x02);
    assert_eq!(cart.read(0xA000), 0x12);
    let mut small = loaded(0x03, 0, 2);
    small.write(0x6000, 0x01);
    small.write(0x4000, 0x02);
    assert_eq!(small.active_ram_bank(), 0);
}

#[test]
fn cartridges_without_ram_read_ff_in_the_ram_window() {
    let mut cart = loaded(0x01, 0, 0);
    cart.write(0x0000, 0x0A);
    cart.write(0xA000, 0x12);
    assert_eq!(cart.read(0xA000), 0xFF);
}

#[test]
fn mbc3_selects_seven_bits_of_rom_bank() {
    let rom = image(0x11, 2, 0);
    let mut cart = loaded(0x11, 2, 0);
    cart.write(0x2000, 0x00);
    assert_eq!(cart.active_rom_bank(), 1);
    cart.write(0x2000, 0x80);
    assert_eq!(cart.active_rom_bank(), 1);
    cart.write(0x2000, 0x85);
    assert_eq!(cart.active_rom_bank(), 5);
    assert_eq!(cart.read(0x4000), rom[5 * 0x4000]);
    cart.write(0x2000, 0x7F);
    assert_eq!(cart.active_rom_bank(), 0x7F);
    assert_eq!(cart.read(0x4000), 0xFF);
    assert_eq!(cart.read(0x0000), rom[0]);
}

#[test]
fn mbc3_ram_bank_ignores_clock_registers() {
    let mut cart = loaded(0x13, 0, 3);
    cart.write(0x4000, 0x03);
    assert_eq!(cart.active_ram_bank(), 3);
    cart.write(0x4000, 0x08);
    assert_eq!(cart.active_ram_bank(), 3);
    cart.write(0x4000, 0x0C);
    assert_eq!(cart.active_ram_bank(), 3);
    cart.write(0x6000, 0x01);
    cart.write(0x6000, 0x00);
    assert_eq!(cart.active_ram_bank(), 3);
    assert_eq!(cart.active_rom_bank(), 1);
    cart.write(0x4000, 0x01);
    assert_eq!(cart.active_ram_bank(), 1);
}

#[test]
fn mbc3_ram_is_enabled_by_the_whole_byte() {
    let mut cart = loaded(0x13, 0, 3);
    cart.write(0x0000, 0x1A);
    cart.write(0xA000, 0x21);
    assert_eq!(cart.read(0xA000), 0x00);
    cart.write(0x0000, 0x0A);
    cart.write(0xA000, 0x22);
    assert_eq!(cart.read(0xA000), 0x22);
    cart.write(0x4000, 0x02);
    assert_eq!(cart.read(0xA000), 0x00);
    cart.write(0xA123, 0x23);
    cart.write(0x4000, 0x00);
    assert_eq!(cart.read(0xA000), 0x22);
    assert_eq!(cart.read(0xA123), 0x00);
    cart.write(0x0000, 0x00);
    cart.write(0xA000, 0x24);
    assert_eq!(cart.read(0xA000), 0x22);
}

#[test]
fn mbc3_keeps_the_rom_bank_at_least_one_whatever_is_written() {
    let mut cart = loaded(0x13, 2, 3);
    for addr in [0x0000u16, 0x2000, 0x4000, 0x6000, 0xA000] {
        for val in 0..=255u8 {
            cart.write(addr, val);
            assert!(cart.active_rom_bank() >= 1);
            assert!(cart.is_wf());
        }
    }
}

#[test]
fn controllers_built_by_hand_start_fresh() {
    let rom = image(0x01, 1, 0);
    let mut one = MBC1::new(&rom, 8192);
    assert_eq!(one.read(0x4000), rom[0x4000]);
    one.write(0x0000, 0x0A);
    one.write(0xA000, 0x5A);
    assert_eq!(one.read(0xA000), 0x5A);
    let mut three = MBC3::new(&rom, 0);
    assert_eq!(three.read(0x4000), rom[0x4000]);
    three.write(0x0000, 0x0A);
    three.write(0xA000, 0x5A);
    assert_eq!(three.read(0xA000), 0xFF);
}

#[test]
fn writes_outside_the_cartridge_ranges_change_nothing() {
    for (cart_type, ram_code) in [(0x00u8, 0u8), (0x03, 3), (0x13, 3)] {
        let mut cart = loaded(cart_type, 1, ram_code);
        cart.write(0x0000, 0x0A);
        cart.write(0x2000, 0x02);
        cart.write(0xA000, 0x5A);
        let bank = cart.active_rom_bank();
        let ram_bank = cart.active_ram_bank();
        let kept = cart.read(0xA000);
        for addr in [0x8000u16, 0x9FFF, 0xC000, 0xDFFF, 0xE000, 0xFE00, 0xFF46, 0xFFFF] {
            for val in [0x00u8, 0x01, 0x0A, 0x1F, 0xFF] {
                cart.write(addr, val);
                assert_eq!(cart.active_rom_bank(), bank);
                assert_eq!(cart.active_ram_bank(), ram_bank);
                assert_eq!(cart.read(0xA000), kept);
                assert_eq!(cart.read(0xB000), cart.read(0xB001));
                assert!(cart.is_wf());
            }
        }
    }
}

#[test]
fn mbc1_never_has_a_bank_with_five_zero_low_bits() {
    let mut cart = loaded(0x01, 5, 3);
    let mut seed = 0x2468_ACE1u32;
    for _ in 0..20000 {
        seed = seed.wrapping_mul(1_664_525).wrapping_add(1_013_904_223);
        let addr = (seed >> 16) as u16;
        let val = (seed >> 8) as u8;
        cart.write(addr, val);
        assert!(cart.active_rom_bank() >= 1);
        assert_ne!(cart.active_rom_bank() & 0x1F, 0);
    }
}
