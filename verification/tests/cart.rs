use gbc_m4::cart;
use gbc_m4::cart::CartError;

const LOGO: [u8; 48] = [
    0xCE, 0xED, 0x66, 0x66, 0xCC, 0x0D, 0x00, 0x0B,
    0x03, 0x73, 0x00, 0x83, 0x00, 0x0C, 0x00, 0x0D,
    0x00, 0x08, 0x11, 0x1F, 0x88, 0x89, 0x00, 0x0E,
    0xDC, 0xCC, 0x6E, 0xE6, 0xDD, 0xDD, 0xD9, 0x99,
    0xBB, 0xBB, 0x67, 0x63, 0x6E, 0x0E, 0xEC, 0xCC,
    0xDD, 0xDC, 0x99, 0x9F, 0xBB, 0xB9, 0x33, 0x3E,
];

/// A 32 KiB image with a header like that of the cartridge named in its title.
fn image() -> Vec<u8> {
    let mut rom = vec![0u8; 0x8000];
    rom[0x100..0x104].copy_from_slice(&[0x00, 0xC3, 0x50, 0x01]);
    rom[0x104..0x134].copy_from_slice(&LOGO);
    rom[0x134..0x13F].copy_from_slice(b"POKEMON RED");
    rom[0x144] = b'0';
    rom[0x145] = b'1';
    rom[0x146] = 0x03;
    rom[0x147] = 0x13;
    rom[0x148] = 0x05;
    rom[0x149] = 0x03;
    rom[0x14A] = 0x01;
    rom[0x14B] = 0x33;
    rom[0x14C] = 0x00;
    rom[0x14D] = 0x20;
    rom[0x14E] = 0x91;
    rom[0x14F] = 0xE6;
    rom[0x150] = 0xAA;
    rom[0x3FFE] = 0xBB;
    rom[0x3FFF] = 0xCC;
    rom
}

#[test]
fn logo() {
    let expected = [
        0xCE, 0xED, 0x66, 0x66, 0xCC, 0x0D, 0x00, 0x0B,
        0x03, 0x73, 0x00, 0x83, 0x00, 0x0C, 0x00, 0x0D,
        0x00, 0x08, 0x11, 0x1F, 0x88, 0x89, 0x00, 0x0E,
        0xDC, 0xCC, 0x6E, 0xE6, 0xDD, 0xDD, 0xD9, 0x99,
        0xBB, 0xBB, 0x67, 0x63, 0x6E, 0x0E, 0xEC, 0xCC,
        0xDD, 0xDC, 0x99, 0x9F, 0xBB, 0xB9, 0x33, 0x3E,
    ];
    let rom = image();
    let actual = cart::logo(&rom);

    assert_eq!(expected, actual);
}

#[test]
fn logo_has_48_bytes() {
    let rom = image();
    assert_eq!(cart::logo(&rom).len(), 48);
}

#[test]
fn entry_is_the_four_bytes_at_0x100() {
    let rom = image();
    assert_eq!(cart::entry(&rom), &[0x00, 0xC3, 0x50, 0x01]);
}

#[test]
fn title_drops_trailing_zeros() {
    let rom = image();
    assert_eq!(cart::title(&rom), b"POKEMON RED");
}

#[test]
fn title_keeps_inner_zeros() {
    let mut rom = image();
    rom[0x134..0x144].copy_from_slice(b"AB\0CD\0\0\0\0\0\0\0\0\0\0\0");
    assert_eq!(cart::title(&rom), b"AB\0CD");
}

#[test]
fn title_of_full_field_is_the_field() {
    let mut rom = image();
    rom[0x134..0x144].copy_from_slice(b"0123456789ABCDEF");
    assert_eq!(cart::title(&rom), b"0123456789ABCDEF");
}

#[test]
fn title_of_zeros_keeps_the_first_byte() {
    let mut rom = image();
    rom[0x134..0x144].copy_from_slice(&[0u8; 16]);
    assert_eq!(cart::title(&rom), &[0u8]);
}

#[test]
fn title_of_one_character() {
    let mut rom = image();
    rom[0x134..0x144].copy_from_slice(b"Z\0\0\0\0\0\0\0\0\0\0\0\0\0\0\0");
    assert_eq!(cart::title(&rom), b"Z");
}

#[test]
fn single_byte_fields() {
    let mut rom = image();
    rom[0x143] = 0x80;
    assert_eq!(*cart::cgb_flag(&rom), 0x80);
    assert_eq!(*cart::sgb_flag(&rom), 0x03);
    assert_eq!(*cart::cart_type(&rom), 0x13);
    assert_eq!(*cart::rom_size(&rom), 0x05);
    assert_eq!(*cart::ram_size(&rom), 0x03);
    assert_eq!(*cart::dest_code(&rom), 0x01);
    assert_eq!(*cart::old_licensee_code(&rom), 0x33);
    assert_eq!(*cart::mask_rom_ver_number(&rom), 0x00);
    assert_eq!(*cart::header_checksum(&rom), 0x20);
}

#[test]
fn slice_fields() {
    let mut rom = image();
    rom[0x13F..0x143].copy_from_slice(b"WXYZ");
    assert_eq!(cart::manufacturer_code(&rom), b"WXYZ");
    assert_eq!(cart::new_licensee_code(&rom), b"01");
    assert_eq!(cart::global_checksum(&rom), &[0x91, 0xE6]);
}

#[test]
fn game_data_runs_from_0x150_to_0x3ffe() {
    let rom = image();
    let data = cart::game_data(&rom);
    assert_eq!(data.len(), 0x3FFF - 0x150);
    assert_eq!(data[0], 0xAA);
    assert_eq!(data[data.len() - 1], 0xBB);
}

#[test]
fn header_only_image_is_enough_for_the_header() {
    let rom = image();
    let short = &rom[..0x150];
    assert_eq!(cart::title(short), b"POKEMON RED");
    assert_eq!(cart::global_checksum(short), &[0x91, 0xE6]);
}

#[test]
fn an_image_serves_each_field_as_soon_as_it_holds_it() {
    let rom = image();
    assert_eq!(cart::entry(&rom[..0x104]), &[0x00, 0xC3, 0x50, 0x01]);
    assert_eq!(cart::logo(&rom[..0x134]).len(), 48);
    assert_eq!(cart::title(&rom[..0x144]), b"POKEMON RED");
    assert_eq!(*cart::rom_size(&rom[..0x149]), 0x05);
    assert_eq!(cart::game_data(&rom[..0x3FFF]).len(), 0x3FFF - 0x150);
}

#[test]
fn rom_sizes() {
    assert_eq!(cart::human_rom_size(0), Ok(32768));
    assert_eq!(cart::human_rom_size(1), Ok(65536));
    assert_eq!(cart::human_rom_size(2), Ok(131072));
    assert_eq!(cart::human_rom_size(3), Ok(262144));
    assert_eq!(cart::human_rom_size(4), Ok(524288));
    assert_eq!(cart::human_rom_size(5), Ok(1048576));
    assert_eq!(cart::human_rom_size(6), Ok(2097152));
}

#[test]
fn rom_size_7_is_unsupported() {
    assert_eq!(cart::human_rom_size(7), Err(CartError::UnsupportedRomSize(7)));
    assert_eq!(cart::human_rom_size(0x52), Err(CartError::UnsupportedRomSize(0x52)));
    assert_eq!(cart::human_rom_size(255), Err(CartError::UnsupportedRomSize(255)));
}

#[test]
fn ram_sizes() {
    assert_eq!(cart::human_ram_size(0), Ok(0));
    assert_eq!(cart::human_ram_size(1), Ok(2048));
    assert_eq!(cart::human_ram_size(2), Ok(8192));
    assert_eq!(cart::human_ram_size(3), Ok(32768));
    assert_eq!(cart::human_ram_size(4), Ok(131072));
    assert_eq!(cart::human_ram_size(5), Err(CartError::UnsupportedRamSize(5)));
}

#[test]
fn ram_bank_counts() {
    assert_eq!(cart::real_ram_bank_count(0), Ok(0));
    assert_eq!(cart::real_ram_bank_count(1), Ok(1));
    assert_eq!(cart::real_ram_bank_count(2), Ok(1));
    assert_eq!(cart::real_ram_bank_count(3), Ok(4));
    assert_eq!(cart::real_ram_bank_count(4), Ok(16));
    assert_eq!(cart::real_ram_bank_count(5), Err(CartError::UnsupportedRamSize(5)));
    assert_eq!(cart::real_ram_bank_count(255), Err(CartError::UnsupportedRamSize(255)));
}

#[test]
fn banks_hold_the_ram() {
    for code in 0u8..=4 {
        let bytes = cart::human_ram_size(code).unwrap();
        let banks = cart::real_ram_bank_count(code).unwrap();
        assert!(banks * 8192 >= bytes);
        assert!(banks == 0 || (banks - 1) * 8192 < bytes);
    }
}
