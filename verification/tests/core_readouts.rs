use fullerene_usb::harvest::TraceHarvest;
use fullerene_usb::readout::{
    core_alive_attach_delay_secs, core_attach_delay_code, core_power_recovery_code,
    dwc3_boundary_summary, ep1_data_phase_complete, post_event_dma_readout_code,
};

const KNOWN_CORE: u32 = 0x3331_0000;
const HALTED: u32 = 0x40_0000;

#[test]
fn post_event_dma_readout() {
    let mut h = TraceHarvest::initial();
    assert_eq!(post_event_dma_readout_code(&h), 9);
    h.post = 0x1_0000 | 0b101;
    assert_eq!(post_event_dma_readout_code(&h), 6);
    h.post = 0x1_0000;
    assert_eq!(post_event_dma_readout_code(&h), 1);
}

#[test]
fn attach_delay_code_bits() {
    // GDSC bits 0b101, known core, halted, link in RxDetect.
    assert_eq!(core_attach_delay_code(0xf5, KNOWN_CORE, HALTED | (5 << 18)), (5 << 3) | 4 | 2 | 1);
    // Unknown core, running in U0.
    assert_eq!(core_attach_delay_code(0, 0, 0), 0);
}

#[test]
fn power_recovery_code_bits() {
    assert_eq!(core_power_recovery_code(true, true, 0x8000_0000, KNOWN_CORE), 0b1111);
    assert_eq!(core_power_recovery_code(false, true, 1, 0), 0b0010);
    assert_eq!(core_power_recovery_code(true, false, 0, 0), 0b0101);
}

#[test]
fn attach_delay_after_recovery() {
    assert_eq!(core_alive_attach_delay_secs(KNOWN_CORE), 4000);
    assert_eq!(core_alive_attach_delay_secs(0xffff_ffff), 500);
}

#[test]
fn boundary_summary_bits() {
    assert_eq!(dwc3_boundary_summary(0, 0, 0, 0, false), 0);
    assert_eq!(dwc3_boundary_summary(3, 0, 0, 0, false), 0, "count below one event");
    assert_eq!(dwc3_boundary_summary(4, 0, 0, 0, false), 1);
    assert_eq!(dwc3_boundary_summary(0, 0, 0x40_0000, 1, false), 0b110);
    assert_eq!(dwc3_boundary_summary(0x8000_0004, 0x0100_0680, 0, 0x0c21, true), 0b1111);
}

#[test]
fn ep1_data_phase() {
    let mut h = TraceHarvest::initial();
    assert!(!ep1_data_phase_complete(&h));
    h.ep1_xfer = 0;
    assert!(ep1_data_phase_complete(&h));
    h.ep1_xfer = 0x2000;
    assert!(!ep1_data_phase_complete(&h));
}
