use fullerene_usb::gate::{cmd_gate_condition_met, gate_met, parse_gate, Gate, GateSnapshot};
use fullerene_usb::harvest::{
    diag_readout_code, harvest_record, harvest_trace, TraceCodes, TraceEntry, TraceHarvest,
    ARMED_MARKER, DARM_MARKER, NO_RECORD, POST_MARKER,
};
use fullerene_usb::readout::{protocol_readout_code, utmi_readout_code, SsSnapshot};

const MAGIC: u32 = 0x5553_4254;
const VERSION: u32 = 3;

const CODES: TraceCodes = TraceCodes {
    trace_magic: MAGIC,
    trace_version: VERSION,
    setup_received: 1,
    device_connect: 2,
    descriptor_queued: 3,
    status_queued: 4,
    transfer_complete: 5,
    xfer_not_ready: 6,
    event_ring_ready: 7,
    setup_queued: 8,
    ep_command_done: 9,
    ep_command_timeout: 10,
};

fn entry(sequence: u32, event: u32, request: u32, value: u32, index: u32, length: u32) -> TraceEntry {
    TraceEntry { sequence, event, request, value, index, length }
}

fn blank() -> TraceEntry {
    entry(0, 0, 0, 0, 0, 0)
}

/// Six records of one attempt in a ring of eight slots.
fn attempt_ring() -> Vec<TraceEntry> {
    vec![
        entry(0, 2, 0, 0, 0, 0),
        entry(1, 8, ARMED_MARKER, 0, 0, 0),
        entry(2, 9, 6, 0, 0x0001_0000, 0),
        entry(3, 1, 6, 0, 0, 64),
        entry(4, 3, DARM_MARKER, 1, 0, 0),
        entry(5, 10, 6, 1, 0x0001_0400, 0),
        blank(),
        blank(),
    ]
}

fn harvested() -> TraceHarvest {
    let mut h = TraceHarvest::initial();
    harvest_trace(&mut h, MAGIC, VERSION, 6, &attempt_ring(), CODES);
    h
}

fn snapshot(harvest: TraceHarvest) -> GateSnapshot {
    GateSnapshot {
        harvest,
        wdt_kpss_en: 1,
        swdd_result: 0x2_0000_0000,
        swdd_avail: 1,
        swdd_std: 0x1_0002,
        mdcr_el2: 0x4000,
        current_el: 0b0100,
        dsts: (1 << 11) | (5 << 18),
        dctl: 0x8000_0000,
        lnk_ever_on: true,
        endpoints_ready: true,
        ep0_setup_armed: false,
        ep0_in_setup: true,
        u0_arm_status: 8,
        init_stage: 4,
        depstart_pre_dsts: NO_RECORD,
        pre_reset_dsts: 0x40_0000 | (1 << 11),
        depstart_raw: 0x400,
        depstart_dsts: 0x2000_0000,
        epcfg0_raw: 0,
        epcfg0_dsts: 0,
        epcfg0_ok: true,
        epcfg1_raw: NO_RECORD,
        epcfg1_dsts: 0,
        epcfg1_ok: false,
    }
}

#[test]
fn harvest_reads_the_newest_records_first() {
    let h = harvested();
    assert_eq!(h.outcome, 0x0001_0000);
    assert_eq!(h.last, 0x8001_0400);
    assert_eq!(h.ep1, 0x8001_0400);
    assert_eq!(h.setup, 1);
    assert_eq!(h.desc, 1);
    assert_eq!(h.darm, 0x1_0001);
    assert_eq!(h.last_setup, 0x6_0040);
    assert_eq!(h.setup_seq, 3);
    assert_eq!(h.armed, 1);
    assert_eq!(h.arm_seq, 1);
    assert_eq!(h.connect, 1);
    assert_eq!(h.addr, 0);
    // A GET_DESCRIPTOR without any SET_ADDRESS is not a post-address read.
    assert_eq!(h.addr2, 0);
    assert_eq!(h.statusq, 0);
    assert_eq!(h.ep1_xfer, NO_RECORD);
    assert_eq!(h.post, NO_RECORD);
    assert_eq!(h.rsc, NO_RECORD);
    assert_eq!(h.cfg, NO_RECORD);
}

#[test]
fn trace_header_check() {
    assert!(fullerene_usb::harvest::trace_header_ok(MAGIC, VERSION, CODES));
    assert!(!fullerene_usb::harvest::trace_header_ok(MAGIC, VERSION + 1, CODES));
    assert!(!fullerene_usb::harvest::trace_header_ok(0, VERSION, CODES));
}

#[test]
fn harvest_leaves_everything_for_a_foreign_or_empty_ring() {
    let before = harvested();
    let mut h = before;
    harvest_trace(&mut h, MAGIC ^ 1, VERSION, 6, &attempt_ring(), CODES);
    assert_eq!(h, before);
    harvest_trace(&mut h, MAGIC, VERSION, 0, &attempt_ring(), CODES);
    assert_eq!(h, before);
}

#[test]
fn harvest_takes_newest_outcomes_of_each_harvest() {
    let mut h = harvested();
    assert_eq!(h.ep1, 0x8001_0400);
    let ring = vec![entry(9, 9, 6, 1, 0x0001_0000, 0), blank()];
    harvest_trace(&mut h, MAGIC, VERSION, 1, &ring, CODES);
    // The newest-outcome fields come from this harvest's records.
    assert_eq!(h.last, 0x0001_0000);
    assert_eq!(h.ep1, 0x0001_0000);
    assert_eq!(h.outcome, 0x0001_0000);
    // The per-scan counters restart.
    assert_eq!(h.setup, 0);
    assert_eq!(h.connect, 0);
    // A ring with no STARTTRANSFER record leaves no newest outcome; the
    // oldest outcome carries over.
    let ring = vec![entry(10, 1, 5, 0, 0, 0), blank()];
    harvest_trace(&mut h, MAGIC, VERSION, 1, &ring, CODES);
    assert_eq!(h.last, NO_RECORD);
    assert_eq!(h.ep1, NO_RECORD);
    assert_eq!(h.outcome, 0x0001_0000);
    assert_eq!(h.setup, 1);
}

#[test]
fn harvest_scans_one_lap_of_a_wrapped_ring() {
    // Six records written into four slots: only the newest four remain.
    let ring = vec![
        entry(4, 1, 5, 0, 0, 0),
        entry(5, 1, 6, 0, 0, 18),
        entry(2, 2, 0, 0, 0, 0),
        entry(3, 2, 0, 0, 0, 0),
    ];
    let mut h = TraceHarvest::initial();
    harvest_trace(&mut h, MAGIC, VERSION, 6, &ring, CODES);
    assert_eq!(h.setup, 2);
    assert_eq!(h.connect, 2);
    assert_eq!(h.addr, 1);
    // The GET_DESCRIPTOR is newer than the SET_ADDRESS.
    assert_eq!(h.addr2, 1);
    assert_eq!(h.last_setup, 0x6_0012);
    assert_eq!(h.setup_seq, 4);
}

#[test]
fn harvest_records_of_every_kind() {
    let mut h = TraceHarvest::initial();
    harvest_record(&mut h, entry(0, 5, 1, 1, 8, 0), CODES);
    assert_eq!(h.ep1_xfer, 8);
    harvest_record(&mut h, entry(0, 5, 1, 1, 9, 0), CODES);
    assert_eq!(h.ep1_xfer, 8);
    harvest_record(&mut h, entry(0, 6, 1, 1, 0, 0), CODES);
    harvest_record(&mut h, entry(0, 6, 1, 2, 0, 0), CODES);
    assert_eq!(h.ep1_nrdy, 1);
    harvest_record(&mut h, entry(0, 7, POST_MARKER, 1, 1, 0x8000_0000), CODES);
    assert_eq!(h.post, 0x1_0007);
    harvest_record(&mut h, entry(0, 4, 0, 0, 0, 0), CODES);
    assert_eq!(h.statusq, 1);
    harvest_record(&mut h, entry(0, 9, 0x0402, 0, 0x0002_0000, 0), CODES);
    assert_eq!(h.rsc, 0x0002_0000);
    harvest_record(&mut h, entry(0, 10, 9, 0, 0x400, 0), CODES);
    assert_eq!(h.cfg, 0x8000_0400);
    // A completed command keeps only its low 23 bits.
    harvest_record(&mut h, entry(0, 9, 6, 0, 0xff80_1000, 0), CODES);
    assert_eq!(h.outcome, 0x0000_1000);
}

#[test]
fn diag_code_follows_enumeration_progress() {
    let mut h = TraceHarvest::initial();
    assert_eq!(diag_readout_code(&h, 0), 1);
    h.setup = 1;
    assert_eq!(diag_readout_code(&h, 0), 2);
    h.setup = 2;
    assert_eq!(diag_readout_code(&h, 0), 3);
    h.desc = 4;
    assert_eq!(diag_readout_code(&h, 0), 4);
    h.darm = 0x1_0001;
    assert_eq!(diag_readout_code(&h, 0), 5);
    h.ep1_nrdy = 2;
    assert_eq!(diag_readout_code(&h, 0), 8);
    assert_eq!(diag_readout_code(&h, 1), 9);
    h.ep1_xfer = 0;
    assert_eq!(diag_readout_code(&h, 1), 7);
    h.statusq = 1;
    assert_eq!(diag_readout_code(&h, 1), 10);
}

#[test]
fn named_gates_read_the_harvest() {
    let s = snapshot(harvested());
    let met = |name: &str| gate_met(parse_gate(name), &s);
    assert!(met("always"));
    assert!(met("done"));
    assert!(!met("timeout"));
    assert!(met("last-timeout"));
    assert!(!met("last-done"));
    assert!(met("setup") && met("desc") && met("armed") && met("connect"));
    assert!(!met("statusq") && !met("addr") && !met("readall"));
    assert!(met("arm-first"));
    assert!(!met("setup-first"));
    assert!(met("ep1-wedge"));
    assert!(!met("ep1-none") && !met("ep1-clean") && !met("ep1-done"));
    assert!(met("darm") && !met("darm-fail"));
    assert!(!met("ep1-xfer") && !met("ep1-nrdy") && !met("post-record"));
    assert!(!met("cfg-hv") && !met("rsc-hv"));
}

#[test]
fn named_gates_read_the_snapshot() {
    let s = snapshot(harvested());
    let met = |name: &str| gate_met(parse_gate(name), &s);
    assert!(met("wdt-armed") && !met("wdt-off"));
    assert!(met("swdd-ok") && !met("swdd-fail"));
    assert!(met("scm-answ") && met("scm-avail") && !met("scm-noimpl") && !met("scm-dead"));
    assert!(met("std-ok") && !met("std-dead"));
    assert!(met("mdcr-trap") && !met("mdcr-clean"));
    assert!(met("el1") && !met("el2"));
    assert!(!met("lnk-on") && met("lnk-ever-on") && !met("lnk-reset") && met("lnk-suspend"));
    assert!(!met("halt") && met("epready") && !met("ep0armed") && met("ep0setup"));
    assert!(met("u0-status8") && !met("u0-status0"));
    assert!(met("is2") && met("is4") && !met("is5"));
    assert!(!met("ds-pre-rst") && !met("ds-pre-halt"));
    assert!(met("dsts-rs") && !met("dsts-rst") && met("dctl-run") && !met("dctl-csf"));
    assert!(met("dctl-ok") && met("dsts-ok"));
    assert!(met("pre-res-rs") && met("pre-res-halt") && !met("pre-res-rst"));
    assert!(!met("ep1-stuck") && !met("ep1-lnk0") && !met("ep1-ok") && met("ep0-ok"));
    assert!(met("ds-stuck") && !met("ds-done") && !met("ep0-stuck"));
    assert!(met("ds-dcnrd") && !met("ep0-dcnrd") && !met("ds-halt") && met("ds-lnk0"));
    assert!(met("ep0-lnk0"));
}

#[test]
fn unnamed_gates_compare_the_outcome_in_hex() {
    let s = snapshot(harvested());
    assert_eq!(parse_gate("10000"), Gate::Outcome { value: 0x1_0000 });
    assert_eq!(parse_gate("0x0x10000"), Gate::Outcome { value: 0x1_0000 });
    assert_eq!(parse_gate("+1aBc"), Gate::Outcome { value: 0x1abc });
    assert_eq!(parse_gate("0x"), Gate::Unmatched);
    assert_eq!(parse_gate("fffffffff"), Gate::Unmatched);
    assert_eq!(parse_gate("zz"), Gate::Unmatched);
    assert_eq!(parse_gate("0X10"), Gate::Unmatched);
    assert!(gate_met(parse_gate("0x10000"), &s));
    assert!(!gate_met(parse_gate("10001"), &s));
    assert!(!gate_met(parse_gate("nonsense"), &s));
}

#[test]
fn cmd_gate_without_a_gate_or_for_mrad_gives_no_verdict() {
    let s = snapshot(harvested());
    assert_eq!(cmd_gate_condition_met(None, &s), None);
    assert_eq!(cmd_gate_condition_met(Some("mrad"), &s), None);
    assert_eq!(cmd_gate_condition_met(Some("done"), &s), Some(true));
    assert_eq!(cmd_gate_condition_met(Some("timeout"), &s), Some(false));
    assert_eq!(cmd_gate_condition_met(Some("zz"), &s), None);
    assert_eq!(cmd_gate_condition_met(Some("0x1"), &s).is_some(), true);
}

#[test]
fn protocol_readout_codes() {
    let mut h = TraceHarvest::initial();
    assert_eq!(protocol_readout_code(&h), 0);
    h.outcome = 0x8000_0400;
    assert_eq!(protocol_readout_code(&h), 1);
    h.outcome = 0x1000;
    assert_eq!(protocol_readout_code(&h), 2);
    h.outcome = 0x3000;
    assert_eq!(protocol_readout_code(&h), 3);
    h.outcome = 0x1_0000;
    assert_eq!(protocol_readout_code(&h), 4);
    h.setup = 1;
    assert_eq!(protocol_readout_code(&h), 5);
}

fn ss_snapshot(valid: bool) -> SsSnapshot {
    SsSnapshot {
        valid,
        dsts: 4 | (6 << 18) | 0x40_0000,
        dctl: 0x8000_0000,
        pipe: 0x2_0000,
        gctl: 0x2000 | (2 << 6),
        qscratch: 1 << 24,
        qscratch_general: 0x109,
        qmp: 0x40 | (0x3 << 16) | (1 << 24),
        ltssm: 0b1010,
        domain: 0b0101,
        qmp_status2: 8,
        qmp_power: 2,
        qmp_aux_branch: 1,
        qmp_pipe_branch: 0x8000_0001,
        qmp_com_aux_branch: 0,
        runstop_pre_dctl: 0xffff_ffff,
        runstop_post_dctl: 0x8000_0000,
        runstop_post_dsts: 0x40_0000,
    }
}

#[test]
fn ss_readouts_of_a_captured_snapshot() {
    let s = ss_snapshot(true);
    let h = TraceHarvest::initial();
    let r = |name: &str| utmi_readout_code(name, &s, &h);
    assert_eq!(r("ss-speed"), Some(4));
    assert_eq!(r("ss-link"), Some(6));
    assert_eq!(r("ss-pipe"), Some(0b1101));
    assert_eq!(r("ss-gctl"), Some(2 | (2 << 2)));
    assert_eq!(r("ss-qmp"), Some(1 | (3 << 1) | (1 << 3)));
    assert_eq!(r("ss-vbus"), Some(1));
    assert_eq!(r("ss-dctl"), Some(0b1110));
    assert_eq!(r("ss-domain"), Some(6));
    assert_eq!(r("ss-domain-core"), Some(1));
    assert_eq!(r("ss-domain-gdsc"), Some(0));
    assert_eq!(r("ss-domain-core-branch"), Some(1));
    assert_eq!(r("ss-domain-utmi-branch"), Some(0));
    assert_eq!(r("ss-gctl-device"), Some(1));
    assert_eq!(r("ss-qmp-phystatus"), Some(1));
    assert_eq!(r("ss-qmp-start0"), Some(1));
    assert_eq!(r("ss-qmp-start1"), Some(1));
    assert_eq!(r("ss-qmp-typec0"), Some(1));
    assert_eq!(r("ss-qmp-rxeq"), Some(1));
    assert_eq!(r("ss-qmp-com-power"), Some(0));
    assert_eq!(r("ss-qmp-pcs-power"), Some(1));
    assert_eq!(r("ss-qmp-aux-branch"), Some(1));
    assert_eq!(r("ss-qmp-pipe-branch"), Some(0));
    assert_eq!(r("ss-qmp-com-aux-branch"), Some(0));
    assert_eq!(r("ss-qscratch-utmi-sel"), Some(1));
    assert_eq!(r("ss-qscratch-phystatus-sw"), Some(1));
    assert_eq!(r("ss-qscratch-utmi-dis"), Some(1));
    assert_eq!(r("ss-ltssm"), Some(10));
    assert_eq!(r("ss-ltssm-bit0"), Some(0));
    assert_eq!(r("ss-ltssm-bit1"), Some(1));
    assert_eq!(r("ss-ltssm-bit1-wide"), Some(1));
    assert_eq!(r("ss-ltssm-bit2"), Some(0));
    assert_eq!(r("ss-ltssm-bit3"), Some(1));
    assert_eq!(r("ss-unknown"), None);
    assert_eq!(r("hs-foo"), None);
}

#[test]
fn ss_readouts_without_a_snapshot_are_sentinels() {
    let s = ss_snapshot(false);
    let h = TraceHarvest::initial();
    let r = |name: &str| utmi_readout_code(name, &s, &h);
    assert_eq!(r("ss-domain"), Some(31));
    assert_eq!(r("ss-domain-gdsc"), Some(2));
    assert_eq!(r("ss-gctl-device"), Some(2));
    assert_eq!(r("ss-gctl"), Some(15));
    assert_eq!(r("ss-qmp-rxeq"), Some(2));
    assert_eq!(r("ss-qscratch-utmi-dis"), Some(2));
    assert_eq!(r("ss-ltssm"), Some(16));
    assert_eq!(r("ss-ltssm-bit3"), Some(2));
    assert_eq!(r("ss-speed"), Some(15));
    assert_eq!(r("ss-anything"), Some(15));
    assert_eq!(r("protocol"), Some(0));
    assert_eq!(r("hs-foo"), None);
}

use fullerene_usb::harvest::{data_arm_record, post_probe_record};
use fullerene_usb::readout::{capture_ss_snapshot, ltssm_register, ltssm_state, ss_domain, SsCapture};

#[test]
fn probe_records_harvest_back() {
    let mut h = TraceHarvest::initial();
    harvest_record(&mut h, post_probe_record(1, CODES.event_ring_ready, true, false, 0x1234, true), CODES);
    assert_eq!(h.post, 0x1_0005);
    let mut h = TraceHarvest::initial();
    harvest_record(&mut h, post_probe_record(1, CODES.event_ring_ready, true, true, 0, false), CODES);
    assert_eq!(h.post, 0x1_0003);
    let mut h = TraceHarvest::initial();
    harvest_record(&mut h, data_arm_record(2, CODES.descriptor_queued, true, 64), CODES);
    assert_eq!(h.darm, 0x1_0001);
    assert_eq!(h.desc, 1);
    let mut h = TraceHarvest::initial();
    harvest_record(&mut h, data_arm_record(2, CODES.descriptor_queued, false, 64), CODES);
    assert_eq!(h.darm, 0x1_0000);
}

#[test]
fn ss_snapshot_capture() {
    assert_eq!(ltssm_register(0x3331_0000), 0xd050);
    assert_eq!(ltssm_register(0x5533_0000), 0xc164);
    assert_eq!(ltssm_state(0x0140_0000), 5);
    assert_eq!(ss_domain(0x5533_0000, 0x8000_0000, 1, 0x8000_0001), 0b0111);
    assert_eq!(ss_domain(0, 0, 0, 1), 0b1000);
    let c = SsCapture {
        dsts: 1,
        dctl: 2,
        pipe: 3,
        gctl: 4,
        qscratch: 5,
        qscratch_general: 6,
        qmp: 7,
        qmp_status2: 8,
        qmp_power: 9,
        qmp_aux_branch: 10,
        qmp_pipe_branch: 11,
        qmp_com_aux_branch: 12,
        snpsid: 0x3331_0000,
        gdsc: 0,
        ltssm_register: 0x0200_0000,
        core_branch: 1,
        utmi_branch: 1,
    };
    let s = capture_ss_snapshot(&c, &ss_snapshot(false));
    assert!(s.valid);
    assert_eq!(s.ltssm, 8);
    assert_eq!(s.domain, 0b1101);
    assert_eq!(s.qmp_com_aux_branch, 12);
    assert_eq!(s.runstop_post_dctl, 0x8000_0000);
}
