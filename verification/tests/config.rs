use fullerene_usb::config::{
    gadget_nump, gadget_speed_value, run_stop_value, run_stop_value_for, RunStopOptions,
};
use fullerene_usb::mmio::{
    DCFG_FULLSPEED, DCFG_LOWSPEED, DCFG_SPEED_MASK, DCFG_SUPERSPEED, DCTL_HIRD_THRES_LITO,
    DCTL_HIRD_THRES_MASK, DCTL_KEEP_CONNECT, DCTL_RUN_STOP, DCTL_TRGTULST_MASK,
    DCTL_TRGTULST_RX_DET, DWC3_REVISION_187A, DWC3_REVISION_194A, DWC3_REVISION_220A,
};

#[test]
fn gadget_nump_uses_linux_fifo_formula_and_cap() {
    assert_eq!(gadget_nump(0, 0), 0);
    assert_eq!(gadget_nump(1, 8), 0);
    assert_eq!(gadget_nump(512, 32), 1);
    assert_eq!(gadget_nump(4096, 64), 16);
}

#[test]
fn run_stop_value_applies_linux_reconnect_quirks() {
    let old = DCTL_KEEP_CONNECT | (3 << 24) | DCTL_TRGTULST_MASK;
    let legacy = run_stop_value(old, DWC3_REVISION_187A);
    assert_eq!(legacy & DCTL_HIRD_THRES_MASK, DCTL_HIRD_THRES_LITO);
    assert_eq!(legacy & DCTL_TRGTULST_MASK, DCTL_TRGTULST_RX_DET);
    assert_ne!(legacy & DCTL_RUN_STOP, 0);

    let modern = run_stop_value(old, DWC3_REVISION_194A);
    assert_eq!(modern & DCTL_HIRD_THRES_MASK, DCTL_HIRD_THRES_LITO);
    assert_eq!(modern & DCTL_TRGTULST_MASK, 0);
    assert_eq!(modern & DCTL_KEEP_CONNECT, 0);
    assert_ne!(modern & DCTL_RUN_STOP, 0);
}

#[test]
fn gadget_speed_value_changes_only_speed_field() {
    let old = 0x00a5_1234;
    let usb2 = gadget_speed_value(old, false, false, DWC3_REVISION_220A);
    assert_eq!(usb2 & DCFG_SPEED_MASK, 0);
    assert_eq!(usb2 & !DCFG_SPEED_MASK, old & !DCFG_SPEED_MASK);

    let superspeed = gadget_speed_value(usb2, true, false, DWC3_REVISION_220A);
    assert_eq!(superspeed & DCFG_SPEED_MASK, DCFG_SUPERSPEED);
    assert_eq!(superspeed & !DCFG_SPEED_MASK, old & !DCFG_SPEED_MASK);

    let legacy = gadget_speed_value(old, false, false, DWC3_REVISION_187A);
    assert_eq!(legacy & DCFG_SPEED_MASK, DCFG_SUPERSPEED);

    let full_speed = gadget_speed_value(old, false, true, DWC3_REVISION_187A);
    assert_eq!(full_speed & DCFG_SPEED_MASK, DCFG_FULLSPEED);
    assert_eq!(full_speed & !DCFG_SPEED_MASK, old & !DCFG_SPEED_MASK);

    let low_speed = {
        let mut value = old & !DCFG_SPEED_MASK;
        value |= DCFG_LOWSPEED;
        value
    };
    assert_eq!(low_speed & DCFG_SPEED_MASK, DCFG_LOWSPEED);
    assert_eq!(low_speed & !DCFG_SPEED_MASK, old & !DCFG_SPEED_MASK);
}

#[test]
fn run_stop_value_build_options() {
    let plain = RunStopOptions { firmware_hird: false, modern_dctl_preserve: false, keep_connect_on_start: false };
    for dctl in [0u32, DCTL_KEEP_CONNECT | DCTL_TRGTULST_MASK, 0x1234_5678] {
        for snpsid in [DWC3_REVISION_187A, DWC3_REVISION_220A, 0x3331_0000, 0x1234_0000] {
            assert_eq!(run_stop_value_for(dctl, snpsid, plain), run_stop_value(dctl, snpsid));
        }
    }
    // Staged handoff probe build: boot firmware HIRD threshold 7 plus APPL1RES.
    let firmware = RunStopOptions { firmware_hird: true, ..plain };
    assert_eq!(run_stop_value_for(0, 0x3331_0000, firmware), 0x8780_0000);
    // KEEP_CONNECT set again on a DWC_usb31 start.
    let keep = RunStopOptions { keep_connect_on_start: true, ..plain };
    assert_eq!(run_stop_value_for(0, 0x3331_0000, keep), 0x9008_0000);
    assert_eq!(run_stop_value_for(0, DWC3_REVISION_220A, keep), 0x9000_0000);
    // Link-state request bits kept on a later DWC_usb3 core.
    let preserve = RunStopOptions { modern_dctl_preserve: true, ..plain };
    assert_eq!(run_stop_value_for(DCTL_TRGTULST_MASK, DWC3_REVISION_220A, preserve), 0x9016_0000);
    assert_eq!(run_stop_value_for(DCTL_TRGTULST_MASK, DWC3_REVISION_220A, plain), 0x9000_0000);
    assert_eq!(run_stop_value_for(0, DWC3_REVISION_187A, preserve), 0x900a_0000);
}
