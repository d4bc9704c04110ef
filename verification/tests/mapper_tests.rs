use emu::mapper::{RomMapper, RomType};

#[test]
fn test_lorom_address_translation() {
    let mut rom = vec![0u8; 0x100000];
    let header_offset = 0x7FC0;
    rom[header_offset] = b'T';
    rom[header_offset + 21] = 0x20;
    let mapper = RomMapper::new(&rom);
    assert_eq!(mapper.translate_lorom(0x008000), Some(0x0000));
    assert_eq!(mapper.translate_lorom(0x018000), Some(0x8000));
    assert_eq!(mapper.translate_lorom(0x000000), None);
}

#[test]
fn test_hirom_address_translation() {
    let mut rom = vec![0u8; 0x200000];
    let header_offset = 0xFFC0;
    rom[header_offset] = b'T';
    rom[header_offset + 21] = 0x21;
    let mapper = RomMapper::new(&rom);
    assert_eq!(mapper.translate_hirom(0x400000), Some(0x0000));
    assert_eq!(mapper.translate_hirom(0xC00000), Some(0x0000));
}

#[test]
fn header_fields_are_parsed() {
    let mut rom = vec![0u8; 0x8000];
    rom[0x7FC0] = b'A';
    rom[0x7FD5] = 0x20;
    rom[0x7FD6] = 0x02;
    rom[0x7FD7] = 0x09;
    rom[0x7FD8] = 0x03;
    rom[0x7FD9] = 0x01;
    rom[0x7FDC] = 0x34;
    rom[0x7FDD] = 0x12;
    let mapper = RomMapper::new(&rom);
    assert_eq!(mapper.header.title[0], b'A');
    assert_eq!(mapper.header.rom_type, RomType::LoRom);
    assert!(mapper.header.has_sram);
    assert!(mapper.header.has_battery);
    assert_eq!(mapper.header.checksum, 0x1234);
    assert_eq!(mapper.ram_size, 8 * 1024);
    assert_eq!(mapper.rom_size, 0x8000);
}

#[test]
fn short_image_gets_empty_header() {
    let rom = vec![0xFFu8; 0x100];
    let mapper = RomMapper::new(&rom);
    assert_eq!(mapper.header.map_mode, 0);
    assert_eq!(mapper.ram_size, 0);
    assert_eq!(mapper.header.rom_type, RomType::LoRom);
}

#[test]
fn lorom_mirrors_and_bounds() {
    let rom = vec![0u8; 0x400000];
    let mapper = RomMapper::new(&rom);
    assert_eq!(mapper.translate_lorom(0x808000), mapper.translate_lorom(0x008000));
    assert_eq!(mapper.translate_lorom(0x408000), Some(0x208000));
    assert_eq!(mapper.translate_lorom(0xC00010), Some(0x200010));
    let small = RomMapper::new(&vec![0u8; 0x10000]);
    assert_eq!(small.translate_lorom(0x028000), None);
}

#[test]
fn sram_window_wraps_by_size() {
    let mut rom = vec![0u8; 0x8000];
    rom[0x7FD5] = 0x20;
    rom[0x7FD6] = 0x01;
    rom[0x7FD8] = 0x01;
    let mapper = RomMapper::new(&rom);
    assert_eq!(mapper.translate_sram_address(0x700000), Some(0));
    assert_eq!(mapper.translate_sram_address(0x700801), Some(1));
    assert_eq!(mapper.translate_sram_address(0x008000), None);
    assert!(mapper.is_rom_address(0x008000));
    assert!(!mapper.is_rom_address(0x000000));
}

#[test]
fn country_names() {
    let mapper = RomMapper::new(&vec![0u8; 0x10]);
    assert_eq!(mapper.get_country_name(0x00), "Japan");
    assert_eq!(mapper.get_country_name(0x01), "USA");
    assert_eq!(mapper.get_country_name(0xFF), "Invalid");
}

#[test]
fn cartridge_type_two_has_ram_and_battery() {
    let mut rom = vec![0u8; 0x8000];
    rom[0x7FD6] = 0x02;
    rom[0x7FD8] = 0x03;
    let m = RomMapper::new(&rom);
    assert_eq!(m.header.cartridge_type, 0x02);
    assert!(m.header.has_sram);
    assert!(m.header.has_battery);
    assert_eq!(m.ram_size, 8 * 1024);
}

#[test]
fn cartridge_types() {
    let kinds: Vec<(u8, bool, bool)> = (0u8..7)
        .map(|t| {
            let mut rom = vec![0u8; 0x8000];
            rom[0x7FD6] = t;
            let h = RomMapper::new(&rom).header;
            (t, h.has_sram, h.has_battery)
        })
        .collect();
    assert_eq!(
        kinds,
        vec![
            (0, false, false),
            (1, true, false),
            (2, true, true),
            (3, true, true),
            (4, false, false),
            (5, true, false),
            (6, false, true),
        ]
    );
}

#[test]
fn hirom_map_modes_are_detected() {
    for (mode, expected) in [
        (0x20u8, RomType::LoRom),
        (0x21, RomType::HiRom),
        (0x25, RomType::HiRom),
        (0x30, RomType::LoRom),
        (0x31, RomType::HiRom),
        (0x35, RomType::HiRom),
        (0x05, RomType::ExLoRom),
        (0x0A, RomType::Unknown),
    ] {
        let mut rom = vec![0u8; 0x8000];
        rom[0x7FD5] = mode;
        assert_eq!(RomMapper::new(&rom).header.rom_type, expected);
    }
}

#[test]
fn hirom_cartridge_reads_through_hirom_map() {
    let mut rom = vec![0u8; 0x20000];
    rom[0x7FD5] = 0x21;
    rom[0x10005] = 0x77;
    let m = RomMapper::new(&rom);
    assert_eq!(m.translate_address(0x410005), Some(0x10005));
    assert_eq!(m.translate_address(0xC10005), Some(0x10005));
}
