use fullerene_usb::bytes::{parse_u32_decimal, parse_u32_hex, parse_u64_decimal, trim_hex_prefix};
use fullerene_usb::control::{
    dctl_safe_value, device_state_reached, halting_event_count, prepare_run_stop,
    restore_usb2_after_run_stop, soft_reset_complete, soft_reset_dctl,
};
use fullerene_usb::mmio::{
    DCTL_CSFTRST, DCTL_RUN_STOP, DCTL_TRGTULST_MASK, DSTS_DEVCTRLHLT, GUSB2PHYCFG_ENBLSLPM,
    GUSB2PHYCFG_SUSPHY, PWR_EVENT_LPM_OUT_L1, PWR_EVENT_LPM_OUT_L2, PWR_EVENT_POWERDOWN_IN_P3,
    PWR_EVENT_POWERDOWN_OUT_P3,
};
use fullerene_usb::usb::{
    bare_pullup_stop_after, connect_done_max_packet, decode_event, dma_iova_for,
    ep0_trb_index, event_offset_after_ack, gadget_handoff_post_init_stage_probe_enabled,
    gadget_handoff_stage_probe_enabled, gadget_handoff_stop_selected, gctl_ramclksel,
    gsi_transfer_params, in_uncached_dma_window, known_dwc_core_ip, mmio_quiet_active,
    p3_state_after, power_event_clear_mask, power_event_requests_resume, reapplied_ramclksel,
    usb_clock_stable_delay_us, window_deadline_ticks, AdoptedMapping, Dwc3Event,
};

#[test]
fn decimal_and_hex_parsing() {
    assert_eq!(parse_u64_decimal(b"18446744073709551615"), Some(u64::MAX));
    assert_eq!(parse_u64_decimal(b"18446744073709551616"), None);
    assert_eq!(parse_u64_decimal(b"+7"), Some(7));
    assert_eq!(parse_u64_decimal(b"+"), None);
    assert_eq!(parse_u64_decimal(b""), None);
    assert_eq!(parse_u64_decimal(b"-1"), None);
    assert_eq!(parse_u32_decimal(b"4294967295"), Some(u32::MAX));
    assert_eq!(parse_u32_decimal(b"4294967296"), None);
    assert_eq!(parse_u32_hex(b"ffffffff"), Some(u32::MAX));
    assert_eq!(parse_u32_hex(b"00000000ffffffff"), Some(u32::MAX));
    assert_eq!(parse_u32_hex(b"100000000"), None);
    assert_eq!(parse_u32_hex(b"DeadBeef"), Some(0xdead_beef));
    assert_eq!(parse_u32_hex(b"0x1"), None);
    assert_eq!(trim_hex_prefix(b"0x0x0x12"), b"12");
    assert_eq!(trim_hex_prefix(b"00x1"), b"00x1");
}

#[test]
fn core_identification() {
    assert!(known_dwc_core_ip(0x5533_330a));
    assert!(known_dwc_core_ip(0x5532_0000));
    assert!(known_dwc_core_ip(0x3331_0000));
    assert!(known_dwc_core_ip(0x3332_0000));
    assert!(!known_dwc_core_ip(0xffff_ffff));
    assert!(!known_dwc_core_ip(0));
}

#[test]
fn ramclksel_restore() {
    assert_eq!(gctl_ramclksel(0x0000_0080), 2);
    assert_eq!(reapplied_ramclksel(0x0000_0000, Some(2)), Some(0x80));
    assert_eq!(reapplied_ramclksel(0x0000_0080, Some(2)), None);
    assert_eq!(reapplied_ramclksel(0x0000_00c5, Some(1)), Some(0x45));
    assert_eq!(reapplied_ramclksel(0x0000_00c5, None), None);
}

#[test]
fn ep0_trb_slots() {
    assert_eq!(ep0_trb_index(1, true), 1);
    assert_eq!(ep0_trb_index(0, true), 0);
    assert_eq!(ep0_trb_index(1, false), 0);
}

#[test]
fn build_settings() {
    assert_eq!(usb_clock_stable_delay_us(None), 0);
    assert_eq!(usb_clock_stable_delay_us(Some(b"250")), 250);
    assert_eq!(usb_clock_stable_delay_us(Some(b"abc")), 0);
    assert_eq!(bare_pullup_stop_after(Some(b"3")), Some(3));
    assert_eq!(bare_pullup_stop_after(Some(b"x")), None);
    assert_eq!(bare_pullup_stop_after(None), None);
}

#[test]
fn window_deadline() {
    assert_eq!(window_deadline_ticks(3, 1000, 100), 1300);
    assert_eq!(window_deadline_ticks(3, 1000, 0), u64::MAX);
    assert_eq!(window_deadline_ticks(2, u64::MAX - 5, 10), u64::MAX);
    assert_eq!(window_deadline_ticks(u64::MAX, 0, 2), u64::MAX);
}

#[test]
fn quiet_window() {
    assert!(!mmio_quiet_active(None, 10, 1000, 100));
    assert!(!mmio_quiet_active(Some(b"0"), 10, 1000, 100));
    assert!(!mmio_quiet_active(Some(b"2"), 0, 1000, 100));
    assert!(!mmio_quiet_active(Some(b"2"), 10, 1000, 0));
    assert!(!mmio_quiet_active(Some(b"2"), 900, 1000, 100));
    assert!(mmio_quiet_active(Some(b"2"), 800, 1000, 100));
    assert!(!mmio_quiet_active(Some(b"2"), 2000, 1000, 100));
}

#[test]
fn stage_probes() {
    assert!(gadget_handoff_stop_selected(1 << 13, 13));
    assert!(!gadget_handoff_stop_selected(1 << 13, 12));
    assert!(!gadget_handoff_stop_selected(1, 0));
    assert!(!gadget_handoff_stop_selected(1 << 30, 30));
    assert!(gadget_handoff_stage_probe_enabled(1 << 5));
    assert!(!gadget_handoff_stage_probe_enabled(1 | (1 << 30) | (1 << 31)));
    assert!(!gadget_handoff_post_init_stage_probe_enabled(1 << 24));
    assert!(gadget_handoff_post_init_stage_probe_enabled(1 << 25));
    assert!(gadget_handoff_post_init_stage_probe_enabled(1 << 29));
}

#[test]
fn gsi_doorbell_words() {
    assert_eq!(gsi_transfer_params(0, 0x1000, 2), None);
    assert_eq!(gsi_transfer_params(3, 0x1000, 2), None);
    assert_eq!(gsi_transfer_params(1, 0x1010, 2), None);
    let (high, low) = gsi_transfer_params(2, 0x8000_1040, 2).unwrap();
    assert_eq!(low, 0x8000_1040);
    assert_ne!(high, 0);
}

#[test]
fn uncached_window_covers_both_sections() {
    let (dma, dma_end, tr, tr_end) = (0x8030_0000, 0x8031_0000, 0x8050_0000, 0x8050_1000);
    assert!(in_uncached_dma_window(0x8020_0000, dma, dma_end, tr, tr_end));
    assert!(in_uncached_dma_window(0x805f_ffff, dma, dma_end, tr, tr_end));
    assert!(!in_uncached_dma_window(0x8060_0000, dma, dma_end, tr, tr_end));
    assert!(!in_uncached_dma_window(0x801f_ffff, dma, dma_end, tr, tr_end));
    assert!(!in_uncached_dma_window(0x8030_0000, 0, 0, 0, 0));
    assert!(in_uncached_dma_window(0x8030_0000, dma, dma_end, 0, 0));
}

#[test]
fn power_events() {
    let all = PWR_EVENT_POWERDOWN_IN_P3 | PWR_EVENT_POWERDOWN_OUT_P3 | PWR_EVENT_LPM_OUT_L1;
    assert_eq!(power_event_clear_mask(all | PWR_EVENT_LPM_OUT_L2), all);
    assert!(power_event_requests_resume(PWR_EVENT_LPM_OUT_L1));
    assert!(!power_event_requests_resume(PWR_EVENT_LPM_OUT_L2));
    assert!(p3_state_after(false, PWR_EVENT_POWERDOWN_IN_P3));
    assert!(!p3_state_after(true, PWR_EVENT_POWERDOWN_OUT_P3));
    assert!(p3_state_after(true, PWR_EVENT_POWERDOWN_IN_P3 | PWR_EVENT_POWERDOWN_OUT_P3));
    assert!(!p3_state_after(false, 0));
}

#[test]
fn dma_addresses() {
    assert_eq!(dma_iova_for(0x1234, None), 0x1234);
    let m = AdoptedMapping { cpu: 0x8000_0000, iova: 0xf000_0000 };
    assert_eq!(dma_iova_for(0x8000_0040, Some(m)), 0xf000_0040);
}

#[test]
fn event_words() {
    assert!(matches!(decode_event(0x0000_0101), Dwc3Event::Device { kind: 1 }));
    assert!(matches!(decode_event(0x0000_0201), Dwc3Event::Device { kind: 2 }));
    assert!(matches!(
        decode_event(0x0000_8042 | (1 << 12)),
        Dwc3Event::Endpoint { endpoint: 1, event: 1, status: 9 }
    ));
    assert_eq!(connect_done_max_packet(4), 512);
    assert_eq!(connect_done_max_packet(0), 64);
    assert_eq!(event_offset_after_ack(4092, 8, 4096), 4);
    assert_eq!(event_offset_after_ack(0, 4, 4096), 4);
}

#[test]
fn reset_and_run_stop_values() {
    assert_eq!(dctl_safe_value(0xffff_ffff), !DCTL_TRGTULST_MASK);
    let v = soft_reset_dctl(DCTL_RUN_STOP | DCTL_TRGTULST_MASK);
    assert_eq!(v, DCTL_CSFTRST);
    assert!(soft_reset_complete(0));
    assert!(!soft_reset_complete(DCTL_CSFTRST));
    assert!(device_state_reached(DSTS_DEVCTRLHLT, true));
    assert!(!device_state_reached(0, true));
    assert!(device_state_reached(0, false));
    assert_eq!(halting_event_count(0x8000_0004), 4);

    let usb2 = GUSB2PHYCFG_SUSPHY | GUSB2PHYCFG_ENBLSLPM | 0x7;
    let stop = prepare_run_stop(false, usb2, DCTL_RUN_STOP | DCTL_TRGTULST_MASK | 0x10, 0x5533_330a);
    assert_eq!(stop.saved_usb2, GUSB2PHYCFG_SUSPHY | GUSB2PHYCFG_ENBLSLPM);
    assert_eq!(stop.usb2_write, Some(0x7));
    assert_eq!(stop.dctl, 0x10);
    assert_eq!(restore_usb2_after_run_stop(0x7, stop.saved_usb2), usb2);
    let start = prepare_run_stop(true, 0x7, 0, 0x5533_330a);
    assert_eq!(start.usb2_write, None);
    assert_ne!(start.dctl & DCTL_RUN_STOP, 0);
}

#[test]
fn uncached_window_ignores_an_invalid_section_end() {
    // A section with no start does not count, whatever its end.
    assert!(in_uncached_dma_window(0x9000_0000, 0, usize::MAX, 0x9000_0000, 0x9010_0000));
    assert!(!in_uncached_dma_window(0x9020_0000, 0, usize::MAX, 0x9000_0000, 0x9010_0000));
    assert!(!in_uncached_dma_window(0x9000_0000, 0, usize::MAX, 5, 5));
    // A section ending at the top of the highest allowed block.
    let top = usize::MAX - 0x1f_ffff;
    assert!(in_uncached_dma_window(top - 1, top - 0x1000, top, 0, 0));
}
