use emu::bus::Bus;
use emu::cpu::{Flags, _65816};

/// A CPU at 00:0100 with status `p`, and a bus holding `program` there.
fn setup(program: &[u8], p: u8) -> (_65816, Bus) {
    let mut bus = Bus::new();
    for (i, b) in program.iter().enumerate() {
        bus.write(0x00, 0x0100 + i as u16, *b);
    }
    let mut cpu = _65816::new();
    cpu.pc = 0x0100;
    cpu.p = p;
    (cpu, bus)
}

#[test]
fn power_on_state() {
    let cpu = _65816::new();
    assert_eq!(cpu.s, 0x01FF);
    assert!(cpu.e);
    assert_eq!(cpu.pc, 0);
    assert_eq!(cpu.cycles, 0);
}

#[test]
fn lda_immediate_8_bit_keeps_high_byte() {
    let (mut cpu, mut bus) = setup(&[0xA9, 0x80], 0x20);
    cpu.a = 0x1200;
    cpu.tick(&mut bus);
    assert_eq!(cpu.a, 0x1280);
    assert_eq!(cpu.pc, 0x0102);
    assert_eq!(cpu.cycles, 16);
    assert_eq!(cpu.p & 0x80, 0x80);
    assert_eq!(cpu.p & 0x02, 0x00);
}

#[test]
fn lda_immediate_16_bit_reads_one_byte() {
    let (mut cpu, mut bus) = setup(&[0xA9, 0x00, 0xEA], 0x00);
    cpu.a = 0xFFFF;
    cpu.tick(&mut bus);
    assert_eq!(cpu.a, 0x0000);
    assert_eq!(cpu.p & 0x02, 0x02);
    assert_eq!(cpu.pc, 0x0102);
}

#[test]
fn adc_sets_carry_and_zero() {
    let (mut cpu, mut bus) = setup(&[0xA9, 0xFF, 0x69, 0x01], 0x20);
    cpu.tick(&mut bus);
    cpu.tick(&mut bus);
    assert_eq!(cpu.a & 0xFF, 0x00);
    assert_eq!(cpu.p & 0x01, 0x01);
    assert_eq!(cpu.p & 0x02, 0x02);
}

#[test]
fn adc_signed_overflow_8_bit() {
    let (mut cpu, mut bus) = setup(&[0xA9, 0x7F, 0x69, 0x01], 0x20);
    cpu.tick(&mut bus);
    cpu.tick(&mut bus);
    assert_eq!(cpu.a & 0xFF, 0x80);
    assert_eq!(cpu.p & 0x40, 0x40);
    assert_eq!(cpu.p & 0x01, 0x00);
}

#[test]
fn sbc_16_bit_borrow() {
    // SEC ; LDA #$00 ; SBC #$01 in 16-bit mode.
    let (mut cpu, mut bus) = setup(&[0x38, 0xA9, 0x00, 0xE9, 0x01], 0x00);
    cpu.tick(&mut bus);
    cpu.tick(&mut bus);
    cpu.tick(&mut bus);
    assert_eq!(cpu.a, 0xFFFF);
    assert_eq!(cpu.p & 0x01, 0x00);
    assert_eq!(cpu.p & 0x80, 0x80);
}

#[test]
fn store_16_bit_writes_two_bytes() {
    let (mut cpu, mut bus) = setup(&[0x8D, 0x00, 0x02], 0x00);
    cpu.a = 0xBEEF;
    cpu.dbr = 0x7E;
    cpu.tick(&mut bus);
    assert_eq!(bus.read(0x7E, 0x0200), 0xEF);
    assert_eq!(bus.read(0x7E, 0x0201), 0xBE);
    assert_eq!(cpu.pc, 0x0103);
    assert_eq!(cpu.cycles, 24);
}

#[test]
fn load_absolute_indexed() {
    let (mut cpu, mut bus) = setup(&[0xBD, 0x00, 0x03], 0x20);
    bus.write(0x00, 0x0305, 0x42);
    cpu.x = 5;
    cpu.tick(&mut bus);
    assert_eq!(cpu.a & 0xFF, 0x42);
}

#[test]
fn inc_memory_leaves_flags() {
    let (mut cpu, mut bus) = setup(&[0xE6, 0x40], 0x00);
    bus.write(0x00, 0x0040, 0xFF);
    cpu.tick(&mut bus);
    assert_eq!(bus.read(0x00, 0x0040), 0x00);
    assert_eq!(cpu.p, 0x00);
}

#[test]
fn push_and_pull_accumulator() {
    // PHA ; LDA #$00 ; PLA with an 8-bit accumulator.
    let (mut cpu, mut bus) = setup(&[0x48, 0xA9, 0x00, 0x68], 0x20);
    cpu.a = 0x0042;
    cpu.tick(&mut bus);
    assert_eq!(cpu.s, 0x01FE);
    assert_eq!(bus.read(0x00, 0x01FF), 0x42);
    cpu.tick(&mut bus);
    assert_eq!(cpu.a, 0x0000);
    cpu.tick(&mut bus);
    assert_eq!(cpu.a, 0x0042);
    assert_eq!(cpu.s, 0x01FF);
}

#[test]
fn jsr_and_rts() {
    let (mut cpu, mut bus) = setup(&[0x20, 0x00, 0x03], 0x00);
    bus.write(0x00, 0x0300, 0x60);
    cpu.tick(&mut bus);
    assert_eq!(cpu.pc, 0x0300);
    assert_eq!(cpu.s, 0x01FD);
    cpu.tick(&mut bus);
    assert_eq!(cpu.pc, 0x0103);
    assert_eq!(cpu.s, 0x01FF);
}

#[test]
fn branch_taken_backwards() {
    // BNE -2 with Z clear loops to itself.
    let (mut cpu, mut bus) = setup(&[0xD0, 0xFE], 0x00);
    cpu.tick(&mut bus);
    assert_eq!(cpu.pc, 0x0100);
    cpu.p = 0x02;
    cpu.tick(&mut bus);
    assert_eq!(cpu.pc, 0x0102);
}

#[test]
fn rep_and_sep() {
    let (mut cpu, mut bus) = setup(&[0xE2, 0x30, 0xC2, 0x20], 0x00);
    cpu.tick(&mut bus);
    assert_eq!(cpu.p, 0x30);
    cpu.tick(&mut bus);
    assert_eq!(cpu.p, 0x10);
}

#[test]
fn nmi_pushes_state_and_jumps_to_vector() {
    let (mut cpu, mut bus) = setup(&[0xEA], 0x00);
    cpu.nmi_pending = true;
    cpu.tick(&mut bus);
    // No cartridge: the vector reads 0, and the byte at 00:0000 is 0 (unknown opcode).
    assert_eq!(cpu.pc, 0x0001);
    assert!(!cpu.nmi_pending);
    assert_eq!(cpu.p & 0x04, 0x04);
    assert_eq!(cpu.s, 0x01FC);
    assert_eq!(bus.read(0x00, 0x01FF), 0x00);
    assert_eq!(bus.read(0x00, 0x01FE), 0x01);
    assert_eq!(bus.read(0x00, 0x01FD), 0x00);
    assert_eq!(cpu.cycles, 24 + 24 + 8 + 2);
}

#[test]
fn irq_ignored_while_disabled() {
    let (mut cpu, mut bus) = setup(&[0xEA], 0x04);
    cpu.irq_pending = true;
    cpu.tick(&mut bus);
    assert!(!cpu.irq_pending);
    assert_eq!(cpu.pc, 0x0101);
    assert_eq!(cpu.s, 0x01FF);
    assert_eq!(cpu.cycles, 10);
}

#[test]
fn transfers_and_flags() {
    // LDX #$00 (16-bit X reads one byte) ; TXA ; SEC ; CLC ; SED ; CLD.
    let (mut cpu, mut bus) = setup(&[0xA2, 0x00, 0x8A, 0x38, 0x18, 0xF8, 0xD8], 0x00);
    cpu.a = 0x1234;
    for _ in 0..6 {
        cpu.tick(&mut bus);
    }
    assert_eq!(cpu.a, 0x0000);
    assert_eq!(cpu.p & 0x02, 0x02);
    assert_eq!(cpu.p & 0x01, 0x00);
    assert_eq!(cpu.p & 0x08, 0x00);
}

#[test]
fn compare_sets_carry_when_greater_or_equal() {
    let (mut cpu, mut bus) = setup(&[0xC9, 0x10], 0x20);
    cpu.a = 0x0010;
    cpu.tick(&mut bus);
    assert_eq!(cpu.p & 0x01, 0x01);
    assert_eq!(cpu.p & 0x02, 0x02);
}

#[test]
fn rotate_left_through_carry() {
    let (mut cpu, mut bus) = setup(&[0x2A], 0x21);
    cpu.a = 0x0080;
    cpu.tick(&mut bus);
    assert_eq!(cpu.a, 0x0001);
    assert_eq!(cpu.p & 0x01, 0x01);
}

#[test]
fn long_jump_changes_bank() {
    let (mut cpu, mut bus) = setup(&[0x5C, 0x34, 0x12, 0x7E], 0x00);
    cpu.tick(&mut bus);
    assert_eq!(cpu.k, 0x7E);
    assert_eq!(cpu.pc, 0x1234);
    assert_eq!(cpu.cycles, 32);
}

#[test]
fn flag_masks() {
    assert_eq!(Flags::C.mask(), 0x01);
    assert_eq!(Flags::M.mask(), 0x20);
    assert_eq!(Flags::N.mask(), 0x80);
}

fn reset_rom() -> Vec<u8> {
    let mut rom = vec![0xEAu8; 0x8000];
    rom[0x7FD5] = 0x20;
    rom[0x7FD6] = 0x00;
    rom[0x7FFC] = 0x00;
    rom[0x7FFD] = 0x80;
    rom
}

#[test]
fn test_reset_vector_reading() {
    let mut bus = Bus::new();
    bus.cart.load_rom_data(reset_rom(), "reset.sfc".to_string());
    let vector_lo = bus.read(0x00, 0xFFFC);
    let vector_hi = bus.read(0x00, 0xFFFD);
    let reset_pc = ((vector_hi as u16) << 8) | (vector_lo as u16);
    println!("Reset vector: lo=0x{:02X}, hi=0x{:02X}, PC=0x{:04X}", vector_lo, vector_hi, reset_pc);
    assert_ne!(reset_pc, 0x0000, "Reset PC should not be 0x0000");
    assert_ne!(reset_pc, 0xFFFF, "Reset PC should not be 0xFFFF");
}

#[test]
fn test_cpu_execution() {
    let mut bus = Bus::new();
    let mut cpu = _65816::new();
    bus.cart.load_rom_data(reset_rom(), "reset.sfc".to_string());
    let vector_lo = bus.read(0x00, 0xFFFC);
    let vector_hi = bus.read(0x00, 0xFFFD);
    cpu.pc = ((vector_hi as u16) << 8) | (vector_lo as u16);
    println!("CPU starting at PC=0x{:04X}", cpu.pc);
    for i in 0..100 {
        let pc_before = cpu.pc;
        cpu.tick(&mut bus);
        if i % 20 == 0 {
            println!("Cycle {}: PC=0x{:04X} (from 0x{:04X})", i, cpu.pc, pc_before);
        }
    }
    assert_ne!(cpu.pc, vector_lo as u16, "CPU PC should have changed");
    assert_eq!(cpu.pc, 0x8064);
}

#[test]
fn sbc_8_bit_overflow_flag() {
    // SBC #$05 from A = 3 with carry set: no signed overflow.
    let (mut cpu, mut bus) = setup(&[0xE9, 0x05], 0x21);
    cpu.a = 0x0003;
    cpu.tick(&mut bus);
    assert_eq!(cpu.a, 0x00FE);
    assert_eq!(cpu.p, 0xA0);
    // SBC #$01 from A = 0x80: signed overflow.
    let (mut cpu, mut bus) = setup(&[0xE9, 0x01], 0x21);
    cpu.a = 0x0080;
    cpu.tick(&mut bus);
    assert_eq!(cpu.a, 0x007F);
    assert_eq!(cpu.p & 0x40, 0x40);
}

#[test]
fn adc_16_bit_overflow_flag() {
    let (mut cpu, mut bus) = setup(&[0x69, 0x01], 0x00);
    cpu.a = 0x7FFF;
    cpu.tick(&mut bus);
    assert_eq!(cpu.a, 0x8000);
    assert_eq!(cpu.p & 0x40, 0x40);
    assert_eq!(cpu.p & 0x80, 0x80);
}

#[test]
fn rti_returns_from_nmi() {
    let mut cpu = _65816::new();
    let mut bus = Bus::new();
    bus.write(0x00, 0x0000, 0x40);
    cpu.pc = 0x1234;
    cpu.p = 0x01;
    cpu.nmi_pending = true;
    cpu.tick(&mut bus);
    assert_eq!(cpu.pc, 0x1234);
    assert_eq!(cpu.p, 0x01);
    assert_eq!(cpu.s, 0x01FF);
}

#[test]
fn step_without_sram_access_runs_on_sram_less_cartridge() {
    // SRAM declared with size 0: steps that never reach the SRAM window run.
    let mut rom = reset_rom();
    rom[0x7FD6] = 0x01;
    rom[0x7FD8] = 0x00;
    let mut bus = Bus::new();
    bus.cart.load_rom_data(rom, "nosram.sfc".to_string());
    let mut cpu = _65816::new();
    cpu.pc = 0x8000;
    cpu.tick(&mut bus);
    assert_eq!(cpu.pc, 0x8001);
}
