use hypercraft::emu::EmuDeviceType;
use hypercraft::util::{
    bit_extract, bit_get, bit_set, bitmap_find_nth, in_range, range_in_range, round_down, round_up,
};
use hypercraft::IrqState;

#[test]
fn round_up_to_multiple() {
    assert_eq!(round_up(5, 4), 8);
    assert_eq!(round_up(8, 4), 8);
    assert_eq!(round_up(0, 0x1000), 0);
    assert_eq!(round_up(0x1001, 0x1000), 0x2000);
}

#[test]
fn round_down_to_power_of_two() {
    assert_eq!(round_down(0x1234, 0x1000), 0x1000);
    assert_eq!(round_down(7, 8), 0);
    assert_eq!(round_down(16, 8), 16);
}

#[test]
fn ranges_contain() {
    assert!(range_in_range(0x1000, 0x100, 0x1000, 0x1000));
    assert!(!range_in_range(0x1f00, 0x200, 0x1000, 0x1000));
    assert!(!range_in_range(0xfff, 0x10, 0x1000, 0x1000));
    assert!(in_range(0x1800, 0x1000, 0x1000));
    assert!(in_range(0x2000, 0x1000, 0x1000));
    assert!(!in_range(0x2001, 0x1000, 0x1000));
}

#[test]
fn bit_fields() {
    assert_eq!(bit_extract(0b1011_0000, 4, 3), 0b011);
    assert_eq!(bit_extract(0xabcd, 8, 8), 0xab);
    assert_eq!(bit_get(0b100, 2), 1);
    assert_eq!(bit_get(0b100, 1), 0);
    assert_eq!(bit_set(0b100, 0), 0b101);
    assert_eq!(bit_set(0b100, 2), 0b100);
}

#[test]
fn find_nth_set_and_clear_bits() {
    // set bits at 1, 2, 5, 7
    let map = 0b1010_0110usize;
    assert_eq!(bitmap_find_nth(map, 0, 8, 1, true), Some(1));
    assert_eq!(bitmap_find_nth(map, 0, 8, 3, true), Some(5));
    assert_eq!(bitmap_find_nth(map, 2, 6, 1, true), Some(2));
    assert_eq!(bitmap_find_nth(map, 0, 8, 5, true), None);
    assert_eq!(bitmap_find_nth(map, 0, 8, 2, false), Some(3));
    assert_eq!(bitmap_find_nth(map, 0, 8, 0, true), None);
    assert_eq!(bitmap_find_nth(map, 60, 5, 1, false), None);
}

#[test]
fn irq_state_numbers_round_trip() {
    for n in 0..4usize {
        assert_eq!(IrqState::num_to_state(n).to_num(), n);
    }
    assert_eq!(IrqState::num_to_state(3), IrqState::IrqSPendActive);
    assert_eq!(IrqState::IrqSPend.to_num() & 1, 1);
    assert_eq!(IrqState::IrqSActive.to_num() & 2, 2);
}

#[test]
fn emu_device_kinds() {
    assert_eq!(EmuDeviceType::from_usize(9), EmuDeviceType::EmuDeviceTICCSRE);
    assert_eq!(EmuDeviceType::from_usize(0), EmuDeviceType::EmuDeviceTConsole);
    assert_eq!(EmuDeviceType::from_usize(11).to_usize(), 11);
    assert!(EmuDeviceType::EmuDeviceTGicd.removable());
    assert!(!EmuDeviceType::EmuDeviceTConsole.removable());
    assert!(!EmuDeviceType::EmuDeviceTIOMMU.removable());
    assert_eq!(EmuDeviceType::EmuDeviceTVirtioNet.name(), "virtio net");
    assert_eq!(EmuDeviceType::EmuDeviceTGICR.name(), "interrupt controller gicr");
}

#[test]
fn round_up_at_top_of_range() {
    assert_eq!(round_up(usize::MAX - 0xfff, 0x1000), usize::MAX - 0xfff);
    assert_eq!(round_up(usize::MAX, 1), usize::MAX);
}
