use emu::apu::{Voice, APU, DSP, SPC700};

#[test]
fn test_brr_decode_silence() {
    let mut voice = Voice::new();
    let brr_block = [0x00, 0x00, 0x00, 0x00, 0x00, 0x00, 0x00, 0x00, 0x00];
    voice.decode_brr_block(&brr_block);
    for sample in voice.brr_buffer.iter() {
        assert!(*sample <= 2 && *sample >= -2);
    }
}

#[test]
fn test_envelope_adsr_mode() {
    let mut voice = Voice::new();
    voice.adsr1 = 0xEF;
    voice.adsr2 = 0x00;
    voice.envx = 0;
    voice.update_envelope();
    assert!(voice.envx > 0);
}

#[test]
fn test_apu_initialization() {
    let apu = APU::new();
    assert_eq!(apu.spc700.pc, 0xFFC0);
    assert_eq!(apu.spc700.sp, 0xEF);
}

#[test]
fn test_dsp_register_read_write() {
    let mut dsp = DSP::new();
    dsp.write_register(0x00, 127);
    assert_eq!(dsp.read_register(0x00), 127);
}

#[test]
fn psw_round_trip_for_every_byte() {
    let mut cpu = SPC700::new();
    for val in 0..=255u8 {
        cpu.set_psw(val);
        assert_eq!(cpu.get_psw(), val);
    }
}

#[test]
fn sound_ram_round_trip() {
    let mut apu = APU::new();
    apu.write_ram(0x1234, 0x5A);
    assert_eq!(apu.read_ram(0x1234), 0x5A);
    assert_eq!(apu.read_ram(0x1235), 0x00);
}

#[test]
fn voice_registers_round_trip() {
    let mut dsp = DSP::new();
    dsp.write_register(0x12, 0x34);
    assert_eq!(dsp.read_register(0x12), 0x34);
    dsp.write_register(0x5D, 0x77);
    assert_eq!(dsp.read_register(0x5D), 0x77);
}

#[test]
fn brr_block_with_shift_and_filter_zero() {
    // Shift 12, filter 0: nibble 1 is doubled to 2, then shifted to 8192.
    let mut voice = Voice::new();
    let block = [0xC0, 0x10, 0x00, 0x00, 0x00, 0x00, 0x00, 0x00, 0x00];
    voice.decode_brr_block(&block);
    assert_eq!(voice.brr_buffer[0], 8192);
    assert_eq!(voice.brr_buffer[1], 0);
}

#[test]
fn brr_prediction_is_clamped() {
    // Shift 11, filter 1: nibble 7 gives 28672, plus half of 30000 exceeds the
    // 16-bit range and is clamped; the next sample adds half of the clamped one.
    let mut voice = Voice::new();
    voice.brr_buffer[0] = 30000;
    let block = [0xB4, 0x70, 0x00, 0x00, 0x00, 0x00, 0x00, 0x00, 0x00];
    voice.decode_brr_block(&block);
    assert_eq!(voice.brr_buffer[0], 32767);
    assert_eq!(voice.brr_buffer[1], 16383);
}

#[test]
fn brr_two_tap_filter_uses_wide_products() {
    // Shift 0, filter 2: 14 + (30000 * 61 >> 6) - (30000 * 15 >> 4) = 482.
    let mut voice = Voice::new();
    voice.brr_buffer[0] = 30000;
    let block = [0x08, 0x70, 0x00, 0x00, 0x00, 0x00, 0x00, 0x00, 0x00];
    voice.decode_brr_block(&block);
    assert_eq!(voice.brr_buffer[0], 482);
}

#[test]
fn apu_tick_runs_one_instruction() {
    let mut apu = APU::new();
    // MOV A,#$42 at the reset address.
    apu.write_ram(0xFFC0, 0xE8);
    apu.write_ram(0xFFC1, 0x42);
    apu.tick();
    assert_eq!(apu.spc700.a, 0x42);
    assert_eq!(apu.spc700.pc, 0xFFC2);
    assert_eq!(apu.cycles, 1);
    assert!(!apu.spc700.z);
    assert!(!apu.spc700.n);
}

#[test]
fn apu_mixes_a_sample_every_64_ticks() {
    let mut apu = APU::new();
    for _ in 0..64 {
        apu.tick();
    }
    assert_eq!(apu.audio_buffer_len(), 2);
    let samples = apu.get_audio_samples();
    assert_eq!(samples, vec![0, 0]);
    assert_eq!(apu.audio_buffer_len(), 0);
}

#[test]
fn spc_push_and_pull() {
    let mut apu = APU::new();
    // MOV A,#$99 ; PUSH A ; MOV A,#$00 ; POP A
    let program = [0xE8, 0x99, 0x2D, 0xE8, 0x00, 0xAE];
    for (i, b) in program.iter().enumerate() {
        apu.write_ram(0xFFC0 + i as u16, *b);
    }
    for _ in 0..4 {
        apu.tick();
    }
    assert_eq!(apu.spc700.a, 0x99);
    assert_eq!(apu.spc700.sp, 0xEF);
    assert_eq!(apu.read_ram(0x01EF), 0x99);
}

#[test]
fn envelope_steps_exactly() {
    let mut voice = Voice::new();
    voice.adsr1 = 0xEF;
    voice.adsr2 = 0x00;
    voice.update_envelope();
    assert_eq!(voice.envx, 8);
    voice.update_envelope();
    assert_eq!(voice.envx, 8 + 16 * 8);
    voice.envx = 0x7FFF;
    voice.update_envelope();
    assert_eq!(voice.envx, 0x7FFF);
}

#[test]
fn envelope_gain_mode() {
    let mut voice = Voice::new();
    voice.adsr1 = 0x00;
    voice.gain = 0x90;
    voice.update_envelope();
    assert_eq!(voice.envx, 0x10 * 0x80);
}

#[test]
fn mixer_scales_by_volume_envelope_and_master() {
    let mut apu = APU::new();
    apu.dsp.voices[0].enabled = true;
    apu.dsp.voices[0].adsr1 = 0x80;
    apu.dsp.voices[0].envx = 0x7FFF;
    apu.dsp.voices[0].left_vol = 127;
    apu.dsp.voices[0].right_vol = -128;
    apu.dsp.voices[0].brr_buffer[0] = 1000;
    apu.dsp.master_vol_left = 127;
    apu.dsp.master_vol_right = 64;
    for _ in 0..64 {
        apu.tick();
    }
    assert_eq!(apu.get_audio_samples(), vec![488, -246]);
}

#[test]
fn spc_call_and_return() {
    let mut apu = APU::new();
    // CALL $0300 at $0200; RET at $0300.
    apu.spc700.pc = 0x0200;
    apu.write_ram(0x0200, 0x3F);
    apu.write_ram(0x0201, 0x00);
    apu.write_ram(0x0202, 0x03);
    apu.write_ram(0x0300, 0x6F);
    apu.tick();
    assert_eq!(apu.spc700.pc, 0x0300);
    assert_eq!(apu.spc700.sp, 0xED);
    assert_eq!(apu.read_ram(0x01EF), 0x02);
    assert_eq!(apu.read_ram(0x01EE), 0x03);
    apu.tick();
    assert_eq!(apu.spc700.pc, 0x0203);
    assert_eq!(apu.spc700.sp, 0xEF);
}

#[test]
fn spc_push_a_pop_x() {
    let mut apu = APU::new();
    apu.spc700.pc = 0x0400;
    apu.spc700.a = 0x80;
    apu.write_ram(0x0400, 0x2D);
    apu.write_ram(0x0401, 0x2E);
    apu.tick();
    apu.tick();
    assert_eq!(apu.spc700.x, 0x80);
    assert_eq!(apu.spc700.sp, 0xEF);
    assert!(apu.spc700.n);
    assert!(!apu.spc700.z);
    assert_eq!(apu.spc700.pc, 0x0402);
}

#[test]
fn dsp_registers_mirror_above_0x80() {
    let mut dsp = DSP::new();
    dsp.write_register(0x92, 0x44);
    assert_eq!(dsp.read_register(0x12), 0x44);
    assert_eq!(dsp.read_register(0x92), 0x44);
    dsp.write_register(0xFC, 0x09);
    assert_eq!(dsp.read_register(0x7C), 0x09);
    for addr in 0..=255u8 {
        assert_eq!(dsp.read_register(addr), dsp.read_register(addr & 0x7F));
    }
}
