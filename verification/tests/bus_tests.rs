use emu::bus::Bus;
use emu::cpu::_65816;

#[test]
fn boot_flag_in_work_ram() {
    let mut bus = Bus::new();
    assert_eq!(bus.read(0x00, 0x0031), 0x03);
    assert_eq!(bus.read(0x7E, 0x0031), 0x03);
    assert_eq!(bus.read(0x7E, 0x0030), 0x00);
}

#[test]
fn low_ram_mirrors_bank_7e() {
    let mut bus = Bus::new();
    bus.write(0x00, 0x1234, 0xAB);
    assert_eq!(bus.read(0x7E, 0x1234), 0xAB);
    assert_eq!(bus.read(0x80, 0x1234), 0xAB);
    bus.write(0x7E, 0x0042, 0x5C);
    assert_eq!(bus.read(0x3F, 0x0042), 0x5C);
}

#[test]
fn work_ram_bank_7f_round_trip() {
    let mut bus = Bus::new();
    bus.write(0x7F, 0xFFFF, 0x99);
    assert_eq!(bus.read(0x7F, 0xFFFF), 0x99);
    assert_eq!(bus.ram[0x1FFFF], 0x99);
    assert_eq!(bus.read(0x7E, 0xFFFF), 0x00);
}

#[test]
fn rom_area_ignores_writes_and_reads_zero_without_cartridge() {
    let mut bus = Bus::new();
    bus.write(0x00, 0x8000, 0x77);
    assert_eq!(bus.read(0x00, 0x8000), 0x00);
    bus.write(0xC0, 0x0000, 0x77);
    assert_eq!(bus.read(0xC0, 0x0000), 0x00);
    assert_eq!(bus.read(0x80, 0x2000), 0x00);
}

#[test]
fn cpu_io_registers_round_trip() {
    let mut bus = Bus::new();
    bus.write(0x00, 0x4200, 0x81);
    assert_eq!(bus.read(0x00, 0x4200), 0x81);
    bus.write(0x00, 0x420F, 0x12);
    assert_eq!(bus.read(0x80, 0x420F), 0x12);
    bus.write(0x00, 0x4210, 0x34);
    assert_eq!(bus.read(0x00, 0x4210), 0x00);
}

#[test]
fn blank_status_register() {
    let mut bus = Bus::new();
    assert_eq!(bus.read(0x00, 0x4212), 0x00);
    bus.ppu.vblank = true;
    assert_eq!(bus.read(0x00, 0x4212), 0x80);
    bus.ppu.hblank = true;
    assert_eq!(bus.read(0x00, 0x4212), 0xC0);
}

#[test]
fn joypad_ports() {
    let mut bus = Bus::new();
    bus.input.update_buttons(0b0000_0010);
    bus.input.write_strobe(1);
    bus.input.write_strobe(0);
    assert_eq!(bus.read(0x00, 0x4218), 0b0000_0010);
    assert_eq!(bus.read(0x00, 0x4217), 0);
    assert_eq!(bus.read(0x00, 0x4217), 1);
    assert_eq!(bus.read(0x00, 0x4217), 0);
}

#[test]
fn dma_registers_through_the_bus() {
    let mut bus = Bus::new();
    bus.write(0x00, 0x4312, 0x56);
    assert_eq!(bus.read(0x00, 0x4312), 0x56);
    assert_eq!(bus.dma.channels[1].source_addr, 0x56);
}

#[test]
fn dma_copies_work_ram_to_vram() {
    let mut bus = Bus::new();
    bus.write(0x7E, 0x0010, 0xAB);
    bus.write(0x7E, 0x0011, 0xCD);
    bus.write(0x00, 0x2115, 0x00);
    bus.write(0x00, 0x2116, 0x00);
    bus.write(0x00, 0x4300, 0x00);
    bus.write(0x00, 0x4301, 0x18);
    bus.write(0x00, 0x4302, 0x10);
    bus.write(0x00, 0x4303, 0x00);
    bus.write(0x00, 0x4304, 0x00);
    bus.write(0x00, 0x4305, 0x02);
    bus.write(0x00, 0x4306, 0x00);
    bus.write(0x00, 0x420A, 0x01);
    assert_eq!(bus.ppu.vram[0], 0xAB);
    assert_eq!(bus.ppu.vram[1], 0xCD);
    assert_eq!(bus.ppu.vram_addr, 2);
    assert_eq!(bus.read(0x00, 0x4300) & 0x80, 0);
    assert!(!bus.dma.dma_enabled);
    assert_eq!(bus.read(0x00, 0x420A), 0x01);
}

#[test]
fn dma_enable_zero_starts_nothing() {
    let mut bus = Bus::new();
    bus.write(0x00, 0x4300, 0x80);
    bus.write(0x00, 0x420A, 0x00);
    assert_eq!(bus.read(0x00, 0x4300), 0x80);
    assert_eq!(bus.ppu.vram_addr, 0);
}

#[test]
fn ppu_registers_through_the_bus() {
    let mut bus = Bus::new();
    bus.write(0x00, 0x2105, 0x0B);
    assert_eq!(bus.ppu.bg_mode, 0x03);
    bus.ppu.vblank = true;
    assert_eq!(bus.read(0x00, 0x2134), 0x80);
}

#[test]
fn interrupt_lines() {
    let mut bus = Bus::new();
    let mut cpu = _65816::new();
    bus.trigger_nmi(&mut cpu);
    assert!(cpu.nmi_pending);
    assert!(!cpu.irq_pending);
    bus.trigger_irq(&mut cpu);
    assert!(cpu.irq_pending);
}

#[test]
fn rendering_after_bus_activity() {
    let mut bus = Bus::new();
    bus.write(0x00, 0x2100, 0x0F);
    bus.write(0x00, 0x2121, 0xFF);
    assert_eq!(bus.ppu.control.obj_size, 7);
    // Every idle channel moves 0x10000 bytes of work RAM to register 0x2100;
    // the last byte (0) leaves display control cleared.
    bus.write(0x00, 0x420A, 0xFF);
    assert_eq!(bus.ppu.control.obj_size, 0);
    assert!(!bus.ppu.control.forced_blank);
    assert_eq!(bus.read(0x00, 0x4370) & 0x80, 0);
    bus.ppu.render_scanline();
    assert_eq!(bus.ppu.framebuffer[0], 0xFF000000);
}

#[test]
fn joypad_strobe_port() {
    let mut b = Bus::new();
    b.input.update_buttons(0xFE);
    b.write(0x00, 0x4016, 0x01);
    b.write(0x00, 0x4016, 0x00);
    assert_eq!(b.read(0x00, 0x4217), 0x00);
    assert_eq!(b.read(0x00, 0x4217), 0x01);
    b.write(0x80, 0x4016, 0x01);
    assert!(b.input.strobe_latch);
}
