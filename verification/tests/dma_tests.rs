use emu::dma::{DMAChannel, DMAController};
use std::cell::RefCell;

#[test]
fn test_dma_channel_control_register() {
    let mut channel = DMAChannel::new();
    channel.set_control(0xFF);
    assert_eq!(channel.mode, 0x07);
    assert!(channel.direction);
    assert!(channel.indirect);
    assert!(channel.reverse);
    assert!(channel.fixed);
    assert!(channel.enabled);
    assert_eq!(channel.get_control(), 0xFF);
}

#[test]
fn test_dma_address_registers() {
    let mut controller = DMAController::new();
    controller.write_register(0x4302, 0x34);
    controller.write_register(0x4303, 0x12);
    controller.write_register(0x4304, 0x80);
    assert_eq!(controller.channels[0].source_addr, 0x801234);
}

#[test]
fn test_dma_transfer_size() {
    let mut controller = DMAController::new();
    controller.write_register(0x4305, 0x00);
    controller.write_register(0x4306, 0x10);
    assert_eq!(controller.channels[0].transfer_size, 0x1000);
}

#[test]
fn control_round_trip_for_every_byte() {
    let mut channel = DMAChannel::new();
    for v in 0..=255u8 {
        channel.set_control(v);
        assert_eq!(channel.get_control(), v);
    }
}

#[test]
fn register_round_trip_leaves_other_channels() {
    let mut controller = DMAController::new();
    controller.write_register(0x4351, 0x18);
    assert_eq!(controller.read_register(0x4351), 0x18);
    assert_eq!(controller.read_register(0x4301), 0x00);
    assert_eq!(controller.read_register(0x4380), 0x00);
    controller.write_register(0x430A, 0x55);
    assert_eq!(controller.read_register(0x430A), 0x00);
}

#[test]
fn hdma_mask_round_trip() {
    let mut controller = DMAController::new();
    controller.set_hdma_enabled(0b1010_0101);
    assert_eq!(controller.get_hdma_enabled(), 0b1010_0101);
    assert!(controller.channels[0].enabled);
    assert!(!controller.channels[1].enabled);
}

#[test]
fn execute_dma_feeds_wram_bytes() {
    let mut controller = DMAController::new();
    controller.write_register(0x4300, 0x80);
    controller.write_register(0x4301, 0x18);
    controller.write_register(0x4302, 0x01);
    controller.write_register(0x4305, 0x03);
    controller.set_dma_enabled(true);
    let wram = [10u8, 20, 30, 40];
    let log = RefCell::new(Vec::new());
    let writes = controller.execute_dma(&wram, |reg, val| log.borrow_mut().push((reg, val)));
    assert_eq!(log.into_inner(), vec![(0x18, 20), (0x18, 30), (0x18, 40)]);
    assert_eq!(writes, vec![(0x18, 20), (0x18, 30), (0x18, 40)]);
    assert!(!controller.channels[0].enabled);
    assert_eq!(controller.channels[0].transfer_size, 0);
    assert_eq!(controller.channels[0].source_addr, 4);
    assert!(!controller.get_dma_enabled());
}

#[test]
fn reset_clears_channels() {
    let mut controller = DMAController::new();
    controller.write_register(0x4300, 0xFF);
    controller.set_dma_enabled(true);
    controller.reset();
    assert_eq!(controller.read_register(0x4300), 0x00);
    assert!(!controller.get_dma_enabled());
    assert_eq!(controller.nmi_vector, 0xFFFA);
    assert_eq!(controller.irq_vector, 0xFFFE);
}

#[test]
fn hdma_scanline_changes_nothing() {
    let mut controller = DMAController::new();
    controller.write_register(0x4300, 0x42);
    let mut bus = emu::bus::Bus::new();
    controller.execute_hdma_scanline(&mut bus, 10);
    assert_eq!(controller.read_register(0x4300), 0x42);
    assert_eq!(bus.read(0x00, 0x0031), 0x03);
}

#[test]
fn execute_dma_channels_in_order_and_bounds() {
    let mut controller = DMAController::new();
    // Channel 2: fixed source, two bytes past the end of work RAM.
    controller.write_register(0x4320, 0xC0);
    controller.write_register(0x4321, 0x22);
    controller.write_register(0x4322, 0x09);
    controller.write_register(0x4325, 0x02);
    // Channel 1: one byte.
    controller.write_register(0x4310, 0x80);
    controller.write_register(0x4311, 0x11);
    controller.write_register(0x4312, 0x00);
    controller.write_register(0x4315, 0x01);
    // Channel 3: enabled but mode 1, skipped.
    controller.write_register(0x4330, 0x81);
    controller.set_dma_enabled(true);
    let wram = [7u8, 8];
    let writes = controller.execute_dma(&wram, |_, _| {});
    assert_eq!(writes, vec![(0x11, 7), (0x22, 0), (0x22, 0)]);
    assert_eq!(controller.channels[2].source_addr, 0x09);
    assert!(controller.channels[3].enabled);
}

#[test]
fn execute_dma_disabled_hands_out_nothing() {
    let mut controller = DMAController::new();
    controller.write_register(0x4300, 0x80);
    let writes = controller.execute_dma(&[1, 2, 3], |_, _| {});
    assert!(writes.is_empty());
    assert!(controller.channels[0].enabled);
}
