use emu::ppu::{PPU, FRAME_PIXELS};

#[test]
fn power_on() {
    let ppu = PPU::new();
    assert!(ppu.control.forced_blank);
    assert_eq!(ppu.scanline, 0);
    assert_eq!(ppu.framebuffer.len(), FRAME_PIXELS);
}

#[test]
fn cgram_round_trip_and_color() {
    let mut ppu = PPU::new();
    // Entry 1 = pure red (0x001F).
    ppu.cgram_write(2, 0x1F);
    ppu.cgram_write(3, 0x00);
    assert_eq!(ppu.cgram_read(2), 0x1F);
    assert_eq!(ppu.cgram_read(514), 0x1F);
    assert_eq!(ppu.get_color(1), 0xFF0000FF);
    // Entry 2 = white (0x7FFF).
    ppu.cgram_write(4, 0xFF);
    ppu.cgram_write(5, 0x7F);
    assert_eq!(ppu.get_color(2), 0xFFFFFFFF);
    assert_eq!(ppu.get_color(258), 0xFFFFFFFF);
}

#[test]
fn vram_port_writes_and_steps() {
    let mut ppu = PPU::new();
    ppu.write_register(0x15, 0x10);
    ppu.write_register(0x18, 0xAA);
    assert_eq!(ppu.vram[0x10], 0xAA);
    assert_eq!(ppu.vram_addr, 0x11);
    ppu.write_register(0x16, 0x80);
    assert!(ppu.vram_addr_high);
    ppu.write_register(0x19, 0xBB);
    assert_eq!(ppu.vram[0x11], 0xBB);
    assert_eq!(ppu.vram_addr, 0x111);
    ppu.vram_addr = 0x10;
    assert_eq!(ppu.read_register(0x39), 0xAA);
}

#[test]
fn tick_timing() {
    let mut ppu = PPU::new();
    ppu.tick();
    assert!(!ppu.hblank);
    for _ in 1..1097 {
        ppu.tick();
    }
    assert!(ppu.hblank);
    assert_eq!(ppu.cycle, 1097);
    for _ in 1097..1364 {
        ppu.tick();
    }
    assert_eq!(ppu.cycle, 0);
    assert_eq!(ppu.scanline, 1);
}

#[test]
fn vblank_at_line_225_and_frame_wrap() {
    let mut ppu = PPU::new();
    for _ in 0..(225 * 1364) {
        ppu.tick();
    }
    assert_eq!(ppu.scanline, 225);
    assert!(ppu.vblank);
    for _ in 0..(37 * 1364) {
        ppu.tick();
    }
    assert_eq!(ppu.scanline, 0);
    assert!(!ppu.vblank);
    assert!(ppu.field);
}

#[test]
fn forced_blank_renders_black() {
    let mut ppu = PPU::new();
    ppu.framebuffer[5] = 0x12345678;
    ppu.render_scanline();
    assert_eq!(ppu.framebuffer[5], 0xFF000000);
    assert_eq!(ppu.framebuffer[256], 0);
}

#[test]
fn display_control_register() {
    let mut ppu = PPU::new();
    ppu.write_register(0x00, 0x0F);
    assert!(!ppu.control.forced_blank);
    assert_eq!(ppu.control.brightness, 0x0F);
    ppu.write_register(0x05, 0x09);
    assert_eq!(ppu.bg_mode, 1);
}

#[test]
fn oam_round_trip() {
    let mut ppu = PPU::new();
    ppu.oam_write(513, 0x42);
    assert_eq!(ppu.oam_read(1), 0x42);
}

#[test]
fn rendered_pixels_are_opaque() {
    let mut ppu = PPU::new();
    ppu.write_register(0x00, 0x0F);
    ppu.cgram_write(0, 0x1F);
    ppu.cgram_write(1, 0x00);
    ppu.render_scanline();
    for x in 0..256 {
        assert!(ppu.framebuffer[x] >= 0xFF000000);
    }
}
