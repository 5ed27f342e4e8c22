use ruboy::cart::{CartError, CartHeader, CartSpecs, CartType};

/// A 32 KiB image whose header bytes are zero but for the title.
fn image() -> Vec<u8> {
    let mut rom = vec![0u8; 0x8000];
    rom[0x134..0x13c].copy_from_slice(b"TESTGAME");
    rom
}

#[test]
fn parses_plain_header() {
    let mut rom = image();
    rom[0x104] = 0xce;
    rom[0x144] = b'0';
    rom[0x145] = b'1';
    rom[0x148] = 2;
    rom[0x149] = 3;
    rom[0x14a] = 1;
    rom[0x14b] = 0x33;
    rom[0x14c] = 7;
    rom[0x14d] = 0x9a;
    let h = CartHeader::new(&rom).unwrap();
    assert_eq!(h.logo.len(), 0x30);
    assert_eq!(h.logo[0], 0xce);
    assert_eq!(h.title, "TESTGAME\0\0\0\0\0\0\0");
    assert!(!h.gbc);
    assert!(!h.gbc_only);
    assert_eq!(h.manufact, "\0");
    assert_eq!(h.new_license, "01");
    assert!(!h.sgb);
    assert_eq!(h.cart_type, CartType::Rom);
    assert!(h.specs.rom_only);
    assert_eq!(h.size, 0x20000);
    assert_eq!(h.ramsize, 0x8000);
    assert_eq!(h.japan_code, 1);
    assert_eq!(h.old_license, 0x33);
    assert!(h.use_new_license);
    assert_eq!(h.rom_version, 7);
    assert_eq!(h.checksum, 0x9a);
}

#[test]
fn parsing_twice_gives_the_same_header() {
    let mut rom = image();
    rom[0x143] = 0x80;
    rom[0x147] = 0x1b;
    assert_eq!(CartHeader::new(&rom), CartHeader::new(&rom));
}

#[test]
fn invalid_title_uses_default() {
    let mut rom = image();
    rom[0x134] = 0xff;
    rom[0x135] = 0xfe;
    let h = CartHeader::new(&rom).unwrap();
    assert_eq!(h.title, "Default Title");
}

#[test]
fn color_flags() {
    let mut rom = image();
    rom[0x143] = 0xc0;
    rom[0x13f..0x143].copy_from_slice(b"ABCD");
    let h = CartHeader::new(&rom).unwrap();
    assert!(h.gbc && h.gbc_only);
    assert_eq!(h.manufact, "ABCD");
    rom[0x143] = 0x80;
    rom[0x13f] = 0xff;
    let h = CartHeader::new(&rom).unwrap();
    assert!(h.gbc && !h.gbc_only);
    assert_eq!(h.manufact, "");
    rom[0x143] = 0x40;
    let h = CartHeader::new(&rom).unwrap();
    assert!(!h.gbc && !h.gbc_only);
    assert_eq!(h.manufact, "\0");
}

#[test]
fn invalid_new_license_uses_default() {
    let mut rom = image();
    rom[0x144] = 0xc3;
    rom[0x145] = 0x28;
    let h = CartHeader::new(&rom).unwrap();
    assert_eq!(h.new_license, "00");
}

#[test]
fn rom_size_codes() {
    let mut rom = image();
    for (code, size) in [(0u8, 0x8000u32), (1, 0x10000), (8, 0x800000), (9, 0x8000), (0x20, 0x8000)] {
        rom[0x148] = code;
        assert_eq!(CartHeader::new(&rom).unwrap().size, size);
    }
    for code in [0x52u8, 0x53, 0x54] {
        rom[0x148] = code;
        assert_eq!(CartHeader::new(&rom), Err(CartError::UnsupportedRomSize(code)));
    }
}

#[test]
fn ram_size_codes() {
    let mut rom = image();
    for (code, size) in [(0u8, 0u32), (1, 0x800), (2, 0x2000), (3, 0x8000), (4, 0x20000), (5, 0x10000), (6, 0)] {
        rom[0x149] = code;
        assert_eq!(CartHeader::new(&rom).unwrap().ramsize, size);
    }
}

#[test]
fn unknown_cart_type_is_refused() {
    let mut rom = image();
    rom[0x147] = 0x04;
    assert_eq!(CartHeader::new(&rom), Err(CartError::UnknownCartType(0x04)));
    assert_eq!(CartType::from_byte(0x04), None);
    assert_eq!(CartType::from_byte(0xfd), Some(CartType::BandaiTama5));
}

#[test]
fn truncated_image_is_refused() {
    assert_eq!(CartHeader::new(&vec![0u8; 0x14d]), Err(CartError::HeaderTruncated));
    assert!(CartHeader::new(&vec![0u8; 0x14e]).is_ok());
}

#[test]
fn super_console_needs_new_license() {
    let mut rom = image();
    rom[0x146] = 0x03;
    rom[0x14b] = 0x01;
    assert_eq!(CartHeader::new(&rom), Err(CartError::SgbWithOldLicense(0x01)));
    rom[0x14b] = 0x33;
    let h = CartHeader::new(&rom).unwrap();
    assert!(h.sgb);
    assert!(h.use_new_license);
}

#[test]
fn cart_capabilities() {
    let s = CartType::Mbc5RumbleBttry.specs();
    assert_eq!(s.mbc, 5);
    assert!(s.rumble && s.battery && !s.ram && !s.rom_only);
    let s: CartSpecs = CartType::Mbc3RamTimerBttry.specs();
    assert_eq!(s.mbc, 3);
    assert!(s.timer && s.battery && s.ram);
    let s = CartType::Huc1RamBttry.specs();
    assert_eq!(s.mbc, 0);
    assert!(s.huc1 && s.battery && s.ram);
    let s = CartType::Mbc7RamBttryAcclrmtr.specs();
    assert_eq!(s.mbc, 7);
    assert!(s.accelerometer);
    let mut rom = image();
    rom[0x147] = 0x13;
    let h = CartHeader::new(&rom).unwrap();
    assert_eq!(h.cart_type, CartType::Mbc3RamBttry);
    assert_eq!(h.specs, CartType::Mbc3RamBttry.specs());
}

#[test]
fn header_checksum() {
    let rom = vec![0u8; 0x150];
    assert_eq!(CartHeader::compute_checksum(&rom), 0xe7);
    let mut rom = image();
    rom[0x14c] = 0x02;
    let x = CartHeader::compute_checksum(&rom);
    let mut want: u8 = 0;
    for &b in &rom[0x134..=0x14c] {
        want = want.wrapping_sub(b).wrapping_sub(1);
    }
    assert_eq!(x, want);
}
