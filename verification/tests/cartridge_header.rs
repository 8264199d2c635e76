use wasmboi::hardware::cartridge_header::{
    lookup_cartridge_ram_size, lookup_cartridge_rom_size, lookup_cartridge_type, Cartridge,
    CartridgeError, CartridgeType,
};

fn get_header_fixture() -> Vec<u8> {
    vec![
            255, 0, 0, 0, 0, 0, 0, 0, 255, 0, 0, 0, 0, 0, 0, 0, 255, 0, 0, 0, 0, 0, 0, 0, 255, 0,
            0, 0, 0, 0, 0, 0, 255, 0, 0, 0, 0, 0, 0, 0, 255, 0, 0, 0, 0, 0, 0, 0, 255, 0, 0, 0, 0,
            0, 0, 0, 255, 0, 0, 0, 0, 0, 0, 0, 195, 229, 29, 0, 0, 0, 0, 0, 195, 172, 21, 0, 0, 0,
            0, 0, 195, 106, 33, 0, 0, 0, 0, 0, 195, 121, 31, 0, 0, 0, 0, 0, 217, 175, 224, 15, 240,
            255, 71, 203, 135, 224, 255, 240, 68, 254, 145, 32, 250, 240, 64, 230, 127, 224, 64,
            120, 224, 255, 201, 240, 64, 203, 255, 224, 64, 201, 175, 33, 0, 195, 6, 160, 34, 5,
            32, 252, 201, 62, 160, 33, 0, 195, 17, 4, 0, 6, 40, 119, 25, 5, 32, 251, 201, 234, 34,
            209, 240, 184, 245, 250, 34, 209, 205, 126, 62, 205, 177, 0, 241, 205, 126, 62, 201,
            120, 167, 40, 12, 121, 167, 40, 1, 4, 205, 193, 0, 5, 32, 250, 201, 42, 18, 19, 13, 32,
            250, 201, 240, 64, 203, 127, 194, 254, 21, 229, 98, 107, 209, 120, 245, 203, 49, 62,
            15, 161, 71, 62, 240, 161, 79, 241, 195, 157, 0, 240, 64, 203, 127, 194, 54, 22, 213,
            84, 93, 120, 245, 38, 0, 105, 41, 41, 41, 68, 77, 241, 225, 195, 212, 21, 0, 0, 0, 0,
            0, 195, 171, 1, 206, 237, 102, 102, 204, 13, 0, 11, 3, 115, 0, 131, 0, 12, 0, 13, 0, 8,
            17, 31, 136, 137, 0, 14, 220, 204, 110, 230, 221, 221, 217, 153, 187, 187, 103, 99,
            110, 14, 236, 204, 221, 220, 153, 159, 187, 185, 51, 62, 80, 79, 75, 69, 77, 79, 78,
            32, 89, 69, 76, 76, 79, 87, 0, 128, 48, 49, 3, 27, 5, 3, 1, 51, 0, 151, 4, 124, 240,
            184, 245, 120, 205, 126, 62, 42, 79, 42, 71, 42, 87, 62, 3, 61, 32, 253, 205, 153, 1,
            205, 165, 1, 205, 153, 1, 205, 165, 1, 205, 153, 1, 205, 165, 1, 205, 153, 1, 205, 165,
            1, 205, 153, 1, 205, 165, 1, 205, 153, 1, 205, 165, 1, 205, 153, 1, 205, 165, 1, 205,
            153, 1, 11, 121, 176, 32, 199, 241, 205, 126, 62, 201, 122, 230, 128, 203, 63, 203, 63,
            224, 28, 203, 34, 201, 62, 3, 61, 32, 253, 201, 254, 17, 40, 3, 175, 24, 2, 62, 1, 224,
            254, 195, 16, 29, 240, 184, 245, 62, 3, 205, 126, 62, 205, 45, 64, 241, 195, 126, 62,
            240, 184, 245, 62, 3, 205, 126, 62, 205, 0, 64, 241, 195, 126, 62, 62, 255, 234, 107,
            205, 205, 203, 14, 6, 3, 33, 124, 64, 205, 132, 62, 33, 43, 215, 203, 70, 40, 5, 62, 3,
            234, 59, 209, 33, 45, 215, 203, 110, 203, 174, 204, 208, 15, 196, 80, 7,
        ]
}

fn get_cartridge() -> Cartridge {
    let fixture = get_header_fixture();

    Cartridge::new(&fixture).ok().unwrap()
}

#[test]
fn game_title() {
    let cartridge = get_cartridge();

    assert_eq!(cartridge.game_title, "POKEMON YELLOW\u{0}")
}

#[test]
fn rom_size() {
    let cartridge = get_cartridge();

    assert_eq!(cartridge.rom_size, 1000);
}

#[test]
fn ram_size() {
    let cartridge = get_cartridge();

    assert_eq!(cartridge.ram_size, 32)
}

#[test]
fn cartridge_type() {
    let cartridge = get_cartridge();

    assert_eq!(cartridge.cartridge_type, CartridgeType::MBC5_RAM_BAT)
}

#[test]
fn entry() {
    let cartridge = get_cartridge();

    assert_eq!(cartridge.start_address, 427)
}

#[test]
fn header_info_lists_the_fields() {
    let cartridge = get_cartridge();

    assert_eq!(
        cartridge.header_info(),
        "POKEMON YELLOW\u{0} \nCartridge Type: MBC5_RAM_BAT \nRam Size: 32kB \nRom Size: 1000kB \nEntry Address: 1AB"
    );
    assert_eq!(
        cartridge.to_text(),
        "Title: POKEMON YELLOW\u{0}\nCartridge Type: MBC5_RAM_BAT\nStart Address: 1AB\nRom Size: 1000kB\nRam Size: 32kB\n"
    );
}

#[test]
fn short_image_is_bad_rom_data() {
    let fixture = get_header_fixture();

    assert_eq!(Cartridge::new(&fixture[..0x149]).err(), Some(CartridgeError::BadRomData));
    assert!(Cartridge::new(&fixture[..0x14A]).is_ok());
    assert_eq!(Cartridge::new(&[]).err(), Some(CartridgeError::BadRomData));
}

#[test]
fn title_that_is_no_utf8_is_bad_rom_data() {
    let mut fixture = get_header_fixture();
    fixture[0x134] = 0xFF;

    assert_eq!(Cartridge::new(&fixture).err(), Some(CartridgeError::BadRomData));
}

#[test]
fn header_errors_come_in_order() {
    let mut fixture = get_header_fixture();
    fixture[0x147] = 0x04;
    assert_eq!(Cartridge::new(&fixture).err(), Some(CartridgeError::InvalidCartridgeCode));
    fixture[0x149] = 0x04;
    assert_eq!(Cartridge::new(&fixture).err(), Some(CartridgeError::InvalidCartridgeRamSize));
    fixture[0x148] = 0x0B;
    assert_eq!(Cartridge::new(&fixture).err(), Some(CartridgeError::InvalidCartridgeRomSize));
    fixture[0x134] = 0x80;
    assert_eq!(Cartridge::new(&fixture).err(), Some(CartridgeError::BadRomData));
}

#[test]
fn cartridge_type_codes() {
    assert_eq!(lookup_cartridge_type(0x00), Ok(CartridgeType::ROM));
    assert_eq!(lookup_cartridge_type(0x01), Ok(CartridgeType::MBC1));
    assert_eq!(lookup_cartridge_type(0x03), Ok(CartridgeType::MBC1_RAM_BAT));
    assert_eq!(lookup_cartridge_type(0x13), Ok(CartridgeType::MBC3_RAM_BAT));
    assert_eq!(lookup_cartridge_type(0x1B), Ok(CartridgeType::MBC5_RAM_BAT));
    assert_eq!(lookup_cartridge_type(0x04), Err(CartridgeError::InvalidCartridgeCode));
    assert_eq!(lookup_cartridge_type(0xFF), Err(CartridgeError::InvalidCartridgeCode));
    assert_eq!(CartridgeType::ROM.name(), "ROM ONLY");
    assert_eq!(CartridgeType::MBC1_RAM.name(), "MBC1_RAM");
}

#[test]
fn size_codes() {
    assert_eq!(lookup_cartridge_ram_size(0), Ok(0));
    assert_eq!(lookup_cartridge_ram_size(1), Ok(2));
    assert_eq!(lookup_cartridge_ram_size(2), Ok(8));
    assert_eq!(lookup_cartridge_ram_size(3), Ok(32));
    assert_eq!(lookup_cartridge_ram_size(4), Err(CartridgeError::InvalidCartridgeRamSize));
    assert_eq!(lookup_cartridge_rom_size(0), Ok(32));
    assert_eq!(lookup_cartridge_rom_size(2), Ok(128));
    assert_eq!(lookup_cartridge_rom_size(7), Ok(4000));
    assert_eq!(lookup_cartridge_rom_size(0xA), Ok(1500));
    assert_eq!(lookup_cartridge_rom_size(0xB), Err(CartridgeError::InvalidCartridgeRomSize));
}
