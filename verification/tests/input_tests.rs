use emu::input::Input;

#[test]
fn test_button_press() {
    let mut input = Input::new();
    assert_eq!(input.buttons, 0xFF);
    input.set_button(0, true);
    assert_eq!(input.buttons, 0xFE);
}

#[test]
fn test_strobe_and_shift() {
    let mut input = Input::new();
    input.buttons = 0b1001_0101;
    input.write_strobe(0x01);
    input.write_strobe(0x00);
    assert_eq!(input.read_serial(), 0x01);
    assert_eq!(input.read_serial(), 0x00);
    assert_eq!(input.read_serial(), 0x01);
}

#[test]
fn serial_reads_every_button_then_ones() {
    let mut input = Input::new();
    input.update_buttons(0b0110_0011);
    input.write_strobe(1);
    input.write_strobe(0);
    let bits: Vec<u8> = (0..10).map(|_| input.read_serial()).collect();
    assert_eq!(bits, vec![1, 1, 0, 0, 0, 1, 1, 0, 1, 1]);
}

#[test]
fn press_then_release_restores_mask() {
    let mut input = Input::new();
    input.set_button(7, true);
    assert_eq!(input.read_buttons(), 0x7F);
    input.set_button(7, false);
    assert_eq!(input.read_buttons(), 0xFF);
    input.set_button(8, true);
    assert_eq!(input.read_buttons(), 0xFF);
}

#[test]
fn strobe_without_falling_edge_keeps_register() {
    let mut input = Input::new();
    input.update_buttons(0x00);
    input.write_strobe(0);
    assert_eq!(input.shift_register, 0xFF);
    input.write_strobe(1);
    assert_eq!(input.shift_register, 0xFF);
    assert!(input.strobe_latch);
}
