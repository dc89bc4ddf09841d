use fullerene_usb::handoff::{
    device_event_enables, dma_probe_end_resource, event_data_gate, event_ring_address_words,
    event_slot, fastboot_event_address, fault_gate, handoff_core_reset, handoff_dcfg,
    handoff_failure, handoff_gctl, handoff_guctl1, handoff_pipe_ctl, initial_ep0_packet_size,
    ram_pattern_word, ram_readback_ok, ramclk_gate, DeviceEventSet,
    FailureRetry, HandoffReset,
};

#[test]
fn reset_choice() {
    assert_eq!(handoff_core_reset(false, true, true, true), HandoffReset::Keep);
    assert_eq!(
        handoff_core_reset(true, true, true, true),
        HandoffReset::CoreSoftReset { with_usb3_phy: true }
    );
    assert_eq!(
        handoff_core_reset(true, true, false, false),
        HandoffReset::CoreSoftReset { with_usb3_phy: false }
    );
    assert_eq!(
        handoff_core_reset(true, false, false, true),
        HandoffReset::CoreSoftReset { with_usb3_phy: false }
    );
    assert_eq!(handoff_core_reset(true, false, true, true), HandoffReset::DeviceSoftReset);
}

#[test]
fn post_reset_register_values() {
    // Host capability, scale-down and scrambling off bits set: all cleared,
    // device mode and clock-gating disable set.
    assert_eq!(handoff_gctl(0x1000 | 0x30 | 0x8 | 0x4_0000), 0x2000 | 1 | 0x4_0000);
    assert_eq!(handoff_guctl1(0x0100_0101), 0x0100_0001);
    assert_eq!(handoff_pipe_ctl(0x2_0001, true), 0x1);
    assert_eq!(handoff_pipe_ctl(0x1, false), 0x2_0001);
    assert_eq!(handoff_dcfg(0x0008_03fc | 4, false), 0x0008_0000);
    assert_eq!(handoff_dcfg(0x0008_0000 | 0x3f8 | 1, true), 0x0008_0004);
}

#[test]
fn event_ring_words() {
    assert_eq!(event_ring_address_words(0x1_2345_6780), (0x2345_6780, 1));
    assert_eq!(event_ring_address_words(0x8000_0000), (0x8000_0000, 0));
}

#[test]
fn device_event_sets() {
    assert_eq!(device_event_enables(DeviceEventSet::Firmware), 0x47);
    assert_eq!(device_event_enables(DeviceEventSet::Lifecycle), 0x7f);
    assert_eq!(device_event_enables(DeviceEventSet::Full), 0xe7f);
}

#[test]
fn ep0_packet_size_choice() {
    assert_eq!(initial_ep0_packet_size(false, false), 64);
    assert_eq!(initial_ep0_packet_size(true, false), 512);
    assert_eq!(initial_ep0_packet_size(false, true), 512);
}

#[test]
fn fastboot_event_address_checks() {
    // Stock firmware programs an address ending in 0x10.
    assert_eq!(fastboot_event_address(0, 0x9c00_0010), Some(0x9c00_0010));
    assert_eq!(fastboot_event_address(1, 0x20), Some(0x1_0000_0020));
    assert_eq!(fastboot_event_address(0, 0), None);
    assert_eq!(fastboot_event_address(u32::MAX, u32::MAX), None);
    assert_eq!(fastboot_event_address(0, 0x9c00_0018), None);
}

#[test]
fn failure_marker_and_retry() {
    let stage5 = 1u32 << 5;
    let stage7 = 1u32 << 7;
    assert_eq!(handoff_failure(0, 5), (0x4641_0005, FailureRetry::Nothing));
    assert_eq!(handoff_failure(stage5, 5), (0x4641_0005, FailureRetry::BarePullup));
    assert_eq!(handoff_failure(stage7, 7), (0x4641_0007, FailureRetry::RunStopBoundary));
    assert_eq!(handoff_failure(stage7, 12), (0x4641_000c, FailureRetry::Nothing));
}

#[test]
fn ramclk_gate_cases() {
    assert_eq!(ramclk_gate(None, 3), None);
    assert_eq!(ramclk_gate(Some("3"), 3), None);
    assert_eq!(ramclk_gate(Some("+3"), 3), None);
    assert_eq!(ramclk_gate(Some("2"), 3), Some(0x5243_4703));
    assert_eq!(ramclk_gate(Some("x"), 3), None);
    assert_eq!(ramclk_gate(Some(""), 3), None);
}

#[test]
fn ram_readback() {
    assert_eq!(ram_pattern_word(0), 0xA55A_5AA5);
    assert_eq!(ram_pattern_word(5), 0x1234_5678);
    assert_eq!(ram_pattern_word(6), 0xDEAD_BEEF);
    assert_eq!(ram_pattern_word(7), 0x0BAD_C0DE);
    let good: Vec<u32> = (0..16usize).map(ram_pattern_word).collect();
    assert!(ram_readback_ok(&good));
    assert!(ram_readback_ok(&[]));
    let mut bad = good.clone();
    bad[9] = 0;
    assert!(!ram_readback_ok(&bad));
}

#[test]
fn dma_probe_gates() {
    assert_eq!(event_data_gate(None, 0), None);
    assert_eq!(event_data_gate(Some("1"), 0), Some(0x4556_4430));
    assert_eq!(event_data_gate(Some("1"), 5), None);
    assert_eq!(event_data_gate(Some("2"), 5), Some(0x4556_4431));
    assert_eq!(event_data_gate(Some("2"), 0), None);
    assert_eq!(event_data_gate(Some("3"), 0), None);
    assert_eq!(fault_gate(None, 0), None);
    assert_eq!(fault_gate(Some("1"), 0), Some(0x4653_5200));
    assert_eq!(fault_gate(Some("1"), u32::MAX), Some(0x4653_52ff));
    assert_eq!(fault_gate(Some("1"), 0x402), None);
    assert_eq!(fault_gate(Some("2"), 0x402), Some(0x4653_5202));
    assert_eq!(fault_gate(Some("2"), 0), None);
    assert_eq!(fault_gate(Some("7"), 0x402), None);
}

#[test]
fn event_slot_and_probe_resource() {
    assert_eq!(event_slot(0x1006, 0x1000), 4);
    assert_eq!(event_slot(8, 0x1000), 8);
    assert_eq!(dma_probe_end_resource(true, 3), 3);
    assert_eq!(dma_probe_end_resource(true, 0), 1);
    assert_eq!(dma_probe_end_resource(false, 3), 1);
}
