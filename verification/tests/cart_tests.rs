use emu::cart::Cartridge;

fn lorom_image(cart_type: u8, ram_size: u8) -> Vec<u8> {
    let mut rom = vec![0u8; 0x10000];
    rom[0x7FD5] = 0x20;
    rom[0x7FD6] = cart_type;
    rom[0x7FD8] = ram_size;
    rom[0x0000] = 0x11;
    rom[0x8001] = 0x22;
    rom
}

#[test]
fn empty_slot_reads_zero() {
    let cart = Cartridge::new();
    assert_eq!(cart.read(0x008000), 0);
    assert!(cart.get_mapper().is_none());
    assert!(cart.get_rom_data().is_empty());
}

#[test]
fn rom_reads_through_lorom_map() {
    let mut cart = Cartridge::new();
    cart.load_rom_data(lorom_image(0x00, 0x00), "game.sfc".to_string());
    assert_eq!(cart.read(0x008000), 0x11);
    assert_eq!(cart.read(0x018001), 0x22);
    assert_eq!(cart.read(0x808000), 0x11);
    assert_eq!(cart.read(0x000000), 0x00);
    assert!(cart.get_sram_data().is_empty());
    assert!(!cart.wants_sram_file());
}

#[test]
fn sram_write_read_and_save_decision() {
    let mut cart = Cartridge::new();
    cart.load_rom_data(lorom_image(0x02, 0x01), "game.sfc".to_string());
    assert_eq!(cart.get_sram_data().len(), 2048);
    assert_eq!(cart.read(0x700010), 0xFF);
    assert!(cart.write(0x700010, 0x5A));
    assert_eq!(cart.read(0x700010), 0x5A);
    assert_eq!(cart.read(0x700810), 0x5A);
    assert!(!cart.write(0x008000, 0x00));
    assert!(cart.wants_sram_file());
    assert!(cart.wants_sram_save());
}

#[test]
fn restore_sram_copies_prefix() {
    let mut cart = Cartridge::new();
    cart.load_rom_data(lorom_image(0x01, 0x01), "game.sfc".to_string());
    assert!(cart.restore_sram(&[1, 2, 3]));
    assert_eq!(&cart.get_sram_data()[..4], &[1, 2, 3, 0xFF]);
    let too_big = vec![0u8; 4096];
    assert!(!cart.restore_sram(&too_big));
    assert_eq!(cart.get_sram_data()[0], 1);
}
