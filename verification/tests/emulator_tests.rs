use emu::cpu_flags;
use emu::emulator::{EmuState, EmulatorWindow, CYCLES_PER_FRAME};

#[test]
fn new_session_is_stopped() {
    let emu = EmuState::new();
    assert!(!emu.running);
    assert_eq!(emu.total_cycles, 0);
    assert_eq!(emu.frame_count, 0);
}

#[test]
fn stopped_session_runs_no_frame() {
    let mut emu = EmuState::new();
    assert!(!emu.run_frame());
    assert_eq!(emu.frame_count, 0);
    assert_eq!(emu.cpu.cycles, 0);
}

#[test]
fn reset_vector_without_cartridge_is_zero() {
    let mut emu = EmuState::new();
    emu.cpu.pc = 0x1234;
    emu.reset_from_vector();
    assert_eq!(emu.cpu.pc, 0x0000);
    assert!(emu.running);
}

#[test]
fn reset_vector_from_cartridge() {
    let mut emu = EmuState::new();
    let mut rom = vec![0u8; 0x8000];
    rom[0x7FD5] = 0x20;
    rom[0x7FFC] = 0x00;
    rom[0x7FFD] = 0x80;
    emu.bus.cart.load_rom_data(rom, "reset.sfc".to_string());
    emu.reset_from_vector();
    assert_eq!(emu.cpu.pc, 0x8000);
}

#[test]
fn one_frame_counts_steps() {
    let mut emu = EmuState::new();
    emu.reset_from_vector();
    let due = emu.run_frame();
    assert!(!due);
    assert_eq!(emu.frame_count, 1);
    assert_eq!(emu.total_cycles, CYCLES_PER_FRAME as u64);
    assert!(emu.cpu.cycles >= 8 * CYCLES_PER_FRAME as u64);
}

#[test]
fn buttons_from_front_end() {
    let mut emu = EmuState::new();
    emu.press_button(4);
    assert_eq!(emu.bus.input.buttons, 0xEF);
    emu.release_button(4);
    assert_eq!(emu.bus.input.buttons, 0xFF);
}

#[test]
fn vram_usage_count() {
    let mut emu = EmuState::new();
    assert_eq!(emu.vram_bytes_in_use(), 0);
    emu.bus.ppu.vram[10] = 1;
    emu.bus.ppu.vram[65535] = 7;
    assert_eq!(emu.vram_bytes_in_use(), 2);
}

#[test]
fn trace_window_shows_last_lines() {
    let window = EmulatorWindow::new();
    assert_eq!(window.trace_start(3), 0);
    assert_eq!(window.trace_start(14), 0);
    assert_eq!(window.trace_start(20), 6);
}

fn flag_cpu() -> cpu_flags::_65816 {
    cpu_flags::_65816 {
        a: 0,
        dbr: 0,
        dr: 0,
        k: 0,
        pc: 0x1234,
        p: 0,
        s: 0x1FF,
        X: 0,
        Y: 0,
        b: true,
        c: false,
        d: false,
        e: true,
        i: false,
        m: false,
        n: false,
        v: false,
        x: false,
        z: false,
    }
}

#[test]
fn flag_cpu_irq() {
    let mut cpu = flag_cpu();
    cpu.irq();
    assert!(!cpu.b);
    assert!(!cpu.e);
    assert!(cpu.i);
    assert_eq!(cpu.pc, 0xfffe);
}

#[test]
fn flag_cpu_nmi() {
    let mut cpu = flag_cpu();
    cpu.nmi();
    assert!(!cpu.b);
    assert!(!cpu.e);
    assert!(cpu.i);
    assert_eq!(cpu.pc, 0xfffa);
}
