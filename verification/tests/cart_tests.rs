use emucore::cart::{Cart, CartError, CartridgeType, DestinationCode, HeaderSection, LicCode};

/// A well-formed header image: the entry point and logo bytes of a familiar
/// test cartridge, the title "CPU_INSTRS", ROM size code 0x01, RAM size
/// code 0x00, cartridge type 0x01, no-license and Japan codes, and a stored
/// checksum of 0x3B that matches the recomputed one.
fn sample_image() -> Vec<u8> {
    let mut c = vec![0u8; 0x150];
    let entry = [0x00, 0xC3, 0x37, 0x06];
    c[0x100..0x104].copy_from_slice(&entry);
    let logo = [
        0xCE, 0xED, 0x66, 0x66, 0xCC, 0x0D, 0x00, 0x0B, 0x03, 0x73, 0x00, 0x83, 0x00, 0x0C, 0x00,
        0x0D, 0x00, 0x08, 0x11, 0x1F, 0x88, 0x89, 0x00, 0x0E, 0xDC, 0xCC, 0x6E, 0xE6, 0xDD, 0xDD,
        0xD9, 0x99, 0xBB, 0xBB, 0x67, 0x63, 0x6E, 0x0E, 0xEC, 0xCC, 0xDD, 0xDC, 0x99, 0x9F, 0xBB,
        0xB9, 0x33, 0x3E,
    ];
    c[0x104..0x134].copy_from_slice(&logo);
    let title = b"CPU_INSTRS";
    c[0x134..0x134 + title.len()].copy_from_slice(title);
    c[0x143] = 0x80; // color-capable flag; also balances the checksum below
    c[0x147] = 0x01; // cartridge type
    c[0x148] = 0x01; // ROM size code
    c[0x149] = 0x00; // RAM size code
    c[0x14A] = 0x00; // destination code
    c[0x14B] = 0x00; // license code
    c[0x14D] = 0x3B; // stored header checksum
    c
}

#[test]
fn cart_new() {
    let cart = Cart::new();

    assert_eq!(cart.content, vec![], "Initialize content");
    assert_eq!(cart.title, "", "Initialize title");
    assert_eq!(cart.rom_size, 0x00, "Initialize ROM size");
    assert_eq!(cart.ram_size, 0x00, "Initialize RAM size");
    assert_eq!(cart.cartridge_type, 0x00, "Initialize cartridge type");
    assert_eq!(cart.lic_code, 0x00, "Initialize license code");
}

#[test]
fn read_section() {
    let mut cart = Cart::new();

    cart.load(sample_image()).unwrap();

    assert_eq!(
        cart.read_section(HeaderSection::EntryPoint),
        vec![0x00, 0xC3, 0x37, 0x06],
        "Entry Point"
    );

    assert_eq!(
        cart.read_section(HeaderSection::NintendoLogo),
        vec![
            0xCE, 0xED, 0x66, 0x66, 0xCC, 0x0D, 0x00, 0x0B, 0x03, 0x73, 0x00, 0x83, 0x00, 0x0C,
            0x00, 0x0D, 0x00, 0x08, 0x11, 0x1F, 0x88, 0x89, 0x00, 0x0E, 0xDC, 0xCC, 0x6E, 0xE6,
            0xDD, 0xDD, 0xD9, 0x99, 0xBB, 0xBB, 0x67, 0x63, 0x6E, 0x0E, 0xEC, 0xCC, 0xDD, 0xDC,
            0x99, 0x9F, 0xBB, 0xB9, 0x33, 0x3E
        ],
        "Nintendo Logo"
    );

    assert_eq!(cart.title(), "CPU_INSTRS", "Title");

    assert_eq!(cart.read_section(HeaderSection::SGB), vec![0x00], "SGB Flag");

    assert_eq!(cart.rom_size, 0x01, "ROM Size");

    assert_eq!(cart.ram_size, 0x00, "RAM Size");

    assert_eq!(cart.cartridge_type, 0x01, "Cartridge Type");

    assert_eq!(cart.lic_code(), Ok(LicCode::NoLicense), "License Code");

    assert_eq!(
        cart.destination_code(),
        Ok(DestinationCode::Japan),
        "Destination Code"
    );

    assert_eq!(cart.checksum(), 0x3B, "Checksum");

    assert_eq!(cart.calculate_checksum(), 0x3B, "Checksum verify");
}

#[test]
fn checksum_detects_single_corruption() {
    // A well-formed image verifies; flipping one byte inside the
    // 0x134..=0x14C window makes the recomputed checksum diverge from the
    // stored byte.
    let good = sample_image();
    let mut cart = Cart::new();
    cart.load(good.clone()).unwrap();
    assert_eq!(u16::from(cart.checksum()), cart.calculate_checksum());

    for offset in [0x134usize, 0x13E, 0x143, 0x147, 0x14C] {
        let mut bad = good.clone();
        bad[offset] ^= 0x01;
        let mut corrupted = Cart::new();
        corrupted.load(bad).unwrap();
        assert_ne!(
            u16::from(corrupted.checksum()),
            corrupted.calculate_checksum(),
            "Corruption detected"
        );
    }
}

#[test]
fn rom_size_exponential() {
    let mut cart = Cart::new();
    cart.rom_size = 0x00;
    assert_eq!(cart.rom_size(), 32, "32 KB at code 0");
    cart.rom_size = 0x01;
    assert_eq!(cart.rom_size(), 64, "64 KB at code 1");
    cart.rom_size = 0x05;
    assert_eq!(cart.rom_size(), 1024, "1 MB at code 5");
}

#[test]
fn ram_size_table() {
    let mut cart = Cart::new();
    for (code, kb) in [(0x00u8, 0u8), (0x01, 2), (0x02, 8), (0x03, 32)] {
        cart.ram_size = code;
        assert_eq!(cart.ram_size(), Ok(kb), "RAM size lookup");
    }
    cart.ram_size = 0x04;
    assert_eq!(
        cart.ram_size(),
        Err(CartError::UnsupportedRamSize),
        "Reserved RAM size code"
    );
}

#[test]
fn cartridge_type_table() {
    let mut cart = Cart::new();
    cart.cartridge_type = 0x00;
    assert_eq!(cart.cartridge_type(), Ok(CartridgeType::ROMOnly));
    cart.cartridge_type = 0x05;
    assert_eq!(cart.cartridge_type(), Ok(CartridgeType::MBC2));
    cart.cartridge_type = 0x04;
    assert_eq!(
        cart.cartridge_type(),
        Err(CartError::UnsupportedCartridgeType),
        "Unmapped cartridge type code"
    );
}

#[test]
fn lic_code_table() {
    let mut cart = Cart::new();
    cart.lic_code = 0x08;
    assert_eq!(cart.lic_code(), Ok(LicCode::Capcom));
    cart.lic_code = 0x02;
    assert_eq!(
        cart.lic_code(),
        Err(CartError::UnsupportedLicCode),
        "Unmapped license code"
    );
}

#[test]
fn destination_code_unsupported() {
    let mut img = sample_image();
    img[0x14A] = 0x02;
    let mut cart = Cart::new();
    cart.load(img).unwrap();
    assert_eq!(
        cart.destination_code(),
        Err(CartError::UnsupportedDestinationCode),
        "Reserved destination code"
    );
}

#[test]
fn truncated_header_rejected() {
    let mut cart = Cart::new();
    let r = cart.load(vec![0u8; 0x14F]);
    assert_eq!(r, Err(CartError::TruncatedHeader), "Image too short");
    assert_eq!(cart.content, vec![], "Cartridge untouched on error");
}

#[test]
fn invalid_title_rejected() {
    let mut img = sample_image();
    // 0xFF can appear in no valid UTF-8 sequence.
    img[0x136] = 0xFF;
    let mut cart = Cart::new();
    let r = cart.load(img);
    assert_eq!(r, Err(CartError::InvalidTitle), "Title must decode as UTF-8");
    assert_eq!(cart.title, "", "Cartridge untouched on error");
}

#[test]
fn non_ascii_title_accepted() {
    let mut img = sample_image();
    // A two-byte UTF-8 sequence in the title window decodes fine.
    img[0x134..0x143].fill(0);
    img[0x134] = 0xC3;
    img[0x135] = 0xA9;
    let mut cart = Cart::new();
    cart.load(img).unwrap();
    assert_eq!(cart.title(), "\u{e9}", "UTF-8 title decoded");
}

#[test]
fn title_trims_trailing_nulls_only() {
    let mut img = sample_image();
    // An interior null survives; only the trailing padding run is trimmed.
    let title = b"AB\0CD";
    img[0x134..0x143].fill(0);
    img[0x134..0x134 + title.len()].copy_from_slice(title);
    let mut cart = Cart::new();
    cart.load(img).unwrap();
    assert_eq!(cart.title(), "AB\0CD", "Interior null kept, padding trimmed");
}
