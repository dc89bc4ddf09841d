use fullerene_usb::power::{
    doorbell_block_confirmed, doorbell_block_value, entered_l2, gsi_idle, power_event_mask,
    service_power_event, typec_poll_due, typec_reaction, usb2_suspend_values, PowerEventWork,
    TypecEvent, TypecReaction,
};
use fullerene_usb::signal::{
    early_drop_condition, early_drop_marker, early_drop_met, ep0_link_signal_code,
    ep0_raw_link_nibble, ep0_signal_code, link_on_sample, note_device_error, note_event_delivered,
    update_signal_latches, SignalLatches,
};

const RUN: u32 = 0x8000_0000;
const HALTED: u32 = 0x40_0000;

fn dsts_with(link: u32, soffn: u32) -> u32 {
    (link << 18) | (soffn << 3)
}

#[test]
fn fresh_latches_report_nothing() {
    let l = SignalLatches::new();
    assert_eq!(ep0_signal_code(&l), 0);
    assert_eq!(ep0_link_signal_code(&l), 0);
    assert!(!early_drop_met(1, &l));
    assert!(early_drop_met(9, &l));
}

#[test]
fn sof_needs_a_baseline_then_a_change() {
    let mut l = SignalLatches::new();
    let zeros = [0u8; 8];
    // Link in RxDetect, core running, HWO still set on the SETUP TRB.
    update_signal_latches(&mut l, 1, &zeros, dsts_with(5, 100), dsts_with(5, 100), RUN);
    assert!(l.sof_baselined);
    assert!(!l.sof_seen);
    assert_eq!(l.last_soffn, 100);
    assert_eq!(ep0_link_signal_code(&l), 5);
    // Same frame number again: still nothing seen.
    update_signal_latches(&mut l, 1, &zeros, dsts_with(5, 100), dsts_with(5, 100), RUN);
    assert!(!l.sof_seen);
    // A new frame number shows frames arriving.
    update_signal_latches(&mut l, 1, &zeros, dsts_with(0, 101), dsts_with(0, 101), RUN);
    assert!(l.sof_seen);
    assert_eq!(l.last_soffn, 101);
    assert_eq!(ep0_signal_code(&l), 5);
    assert_eq!(ep0_link_signal_code(&l), 1);
}

#[test]
fn setup_observations_rank_above_sof() {
    let mut l = SignalLatches::new();
    let packet = [0x80u8, 6, 0, 1, 0, 0, 0x40, 0];
    update_signal_latches(&mut l, 1, &packet, 0, dsts_with(7, 0), RUN);
    assert!(l.setup_packet_received);
    assert!(!l.setup_trb_retired);
    assert_eq!(ep0_signal_code(&l), 3);
    assert_eq!(ep0_link_signal_code(&l), 4);
    // HWO cleared: the TRB was retired.
    update_signal_latches(&mut l, 0, &[0u8; 8], 0, dsts_with(13, 0), RUN);
    assert_eq!(ep0_signal_code(&l), 2);
    assert_eq!(ep0_link_signal_code(&l), 3);
    note_event_delivered(&mut l);
    assert_eq!(ep0_signal_code(&l), 1);
}

#[test]
fn latches_are_never_cleared() {
    let mut l = SignalLatches::new();
    update_signal_latches(&mut l, 0, &[1u8], 0, dsts_with(0, 3), 0);
    let before = l;
    update_signal_latches(&mut l, 1, &[0u8; 8], 0, dsts_with(5, 3), RUN);
    assert!(l.setup_trb_retired && before.setup_trb_retired);
    assert!(l.setup_packet_received);
    assert!(l.lnkst_u0);
    assert!(l.core_halted);
    assert!(l.lnkst_rxdet);
}

#[test]
fn halted_core_ranks_below_link_on() {
    let mut l = SignalLatches::new();
    update_signal_latches(&mut l, 1, &[0u8; 8], 0, dsts_with(5, 0) | HALTED, RUN);
    assert!(l.core_halted);
    assert_eq!(ep0_link_signal_code(&l), 2);
}

#[test]
fn raw_link_nibble_cases() {
    assert_eq!(ep0_raw_link_nibble(dsts_with(5, 0) | HALTED, RUN), 16);
    assert_eq!(ep0_raw_link_nibble(dsts_with(5, 0), 0), 17);
    assert_eq!(ep0_raw_link_nibble(dsts_with(11, 0), RUN), 11);
}

#[test]
fn link_on_and_mid_transaction() {
    let mut l = SignalLatches::new();
    link_on_sample(&mut l, dsts_with(0, 0) | HALTED);
    assert!(!l.lnk_ever_on);
    link_on_sample(&mut l, dsts_with(8, 0));
    assert!(l.lnk_mid_seen);
    assert!(!l.lnk_ever_on);
    link_on_sample(&mut l, dsts_with(0, 0));
    assert!(l.lnk_ever_on);
    link_on_sample(&mut l, dsts_with(5, 0));
    assert!(l.lnk_ever_on && l.lnk_mid_seen);
}

#[test]
fn device_error_latch() {
    let mut l = SignalLatches::new();
    note_device_error(&mut l);
    assert!(l.device_error);
    assert_eq!(ep0_signal_code(&l), 0);
}

#[test]
fn early_drop_settings() {
    assert_eq!(early_drop_condition(None), 0);
    assert_eq!(early_drop_condition(Some("1")), 1);
    assert_eq!(early_drop_condition(Some("2")), 2);
    assert_eq!(early_drop_condition(Some("3")), 3);
    assert_eq!(early_drop_condition(Some("5")), 5);
    assert_eq!(early_drop_condition(Some("9")), 9);
    assert_eq!(early_drop_condition(Some("4")), 0);
    assert_eq!(early_drop_condition(Some("11")), 0);
    assert_eq!(early_drop_marker(0), 0x5349_4544);
    assert_eq!(early_drop_marker(5), 0x5349_4544 | 0x500);
    let mut l = SignalLatches::new();
    assert!(!early_drop_met(3, &l));
    update_signal_latches(&mut l, 1, &[0u8, 1], 0, 0, RUN);
    assert!(early_drop_met(3, &l));
    assert!(!early_drop_met(2, &l));
    assert!(!early_drop_met(4, &l));
}

#[test]
fn power_event_servicing() {
    assert_eq!(power_event_mask(0x1), 0x1 | 4 | 8 | 0x2000);
    assert_eq!(service_power_event(0, false), None);
    assert_eq!(service_power_event(u32::MAX, true), None);
    assert_eq!(
        service_power_event(4, false),
        Some(PowerEventWork { in_p3: true, l2_bits: 0, resume: false, clear: Some(4) })
    );
    assert_eq!(
        service_power_event(8, true),
        Some(PowerEventWork { in_p3: false, l2_bits: 0, resume: false, clear: Some(8) })
    );
    assert_eq!(
        service_power_event(4 | 8, true),
        Some(PowerEventWork { in_p3: true, l2_bits: 0, resume: false, clear: Some(12) })
    );
    assert_eq!(
        service_power_event(0x10 | 0x2000, false),
        Some(PowerEventWork { in_p3: false, l2_bits: 0x10, resume: true, clear: Some(0x2000) })
    );
    assert_eq!(
        service_power_event(0x20, true),
        Some(PowerEventWork { in_p3: true, l2_bits: 0x20, resume: false, clear: None })
    );
}

#[test]
fn doorbell_block_and_idle() {
    assert_eq!(doorbell_block_value(0x10, true), 0x12);
    assert_eq!(doorbell_block_value(0x13, false), 0x11);
    assert!(doorbell_block_confirmed(0x2, true));
    assert!(!doorbell_block_confirmed(0x0, true));
    assert!(doorbell_block_confirmed(0x0, false));
    assert!(!doorbell_block_confirmed(0x2, false));
    assert!(gsi_idle(0x7fff));
    assert!(!gsi_idle(0x8000));
}

#[test]
fn usb2_suspend_and_l2() {
    assert_eq!(usb2_suspend_values(0x1), (0x141, 0x1));
    assert_eq!(usb2_suspend_values(0x147), (0x147, 0x7));
    assert!(entered_l2(0x10));
    assert!(!entered_l2(0x20));
}

#[test]
fn typec_reactions() {
    assert_eq!(typec_reaction(TypecEvent::DetachDetected), TypecReaction::TearDown);
    assert_eq!(typec_reaction(TypecEvent::HostDetected), TypecReaction::TearDown);
    assert_eq!(typec_reaction(TypecEvent::AttachDetected), TypecReaction::AssertSession);
    assert_eq!(typec_reaction(TypecEvent::Other), TypecReaction::Nothing);
}

#[test]
fn typec_polling_cadence() {
    assert_eq!(typec_poll_due(false, false, 7, true), (7, false));
    assert_eq!(typec_poll_due(true, true, 7, true), (7, false));
    assert_eq!(typec_poll_due(true, false, 7, false), (8, false));
    assert_eq!(typec_poll_due(true, false, 7, true), (8, true));
    assert_eq!(typec_poll_due(true, false, 0x3fff, false), (0x4000, true));
    assert_eq!(typec_poll_due(true, false, u32::MAX, false), (0, true));
}
