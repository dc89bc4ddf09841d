//! DWC3 device reset, Run/Stop, and controller halt-state handling.

use vstd::prelude::*;
use crate::config::{
    run_stop_value, run_stop_fields, is_dwc3_core, spec_run_stop_value, RunStopOptions,
};
use crate::mmio::{
    DCTL_CSFTRST, DCTL_HIRD_THRES_LITO, DCTL_HIRD_THRES_MASK, DCTL_RUN_STOP, DCTL_TRGTULST_MASK,
    DCTL_TRGTULST_RX_DET, DSTS_DEVCTRLHLT, DWC31_IP, DWC31_REVISION_190A, DWC32_IP,
    DWC3_REVISION_187A, GCTL_CORESOFTRESET, GEVNTCOUNT_MASK, GUSB2PHYCFG_ENBLSLPM,
    GUSB2PHYCFG_PHYSOFTRST, GUSB2PHYCFG_SUSPHY, GUSB3PIPECTL_PHYSOFTRST,
};

verus! {

/// DCTL with its link-state request cleared: a request is a command, not
/// configuration, and must not be carried into a reset or stop.
pub fn dctl_safe_value(value: u32) -> (safe: u32)
    ensures
        safe == value & !DCTL_TRGTULST_MASK,
{
    value & !DCTL_TRGTULST_MASK
}

/// The DCTL write that starts a device-core soft reset: CSFTRST set,
/// Run/Stop cleared in the same write, and no link-state request.
pub fn soft_reset_dctl(dctl: u32) -> (value: u32)
    ensures
        value == ((dctl | DCTL_CSFTRST) & !DCTL_RUN_STOP) & !DCTL_TRGTULST_MASK,
{
    dctl_safe_value((dctl | DCTL_CSFTRST) & !DCTL_RUN_STOP)
}

/// How the soft-reset completion is polled.
#[derive(Clone, Copy, PartialEq, Eq, Debug)]
pub enum ResetPollDelay {
    /// 1 ms between samples (the source-exact sequence).
    Millis1,
    /// 20 ms between samples (DWC_usb31 1.90a+ and DWC_usb32 synchronise
    /// the reset through all clocks).
    Millis20,
    /// 1 us between samples.
    Micros1,
}

/// The soft-reset poll policy.
pub struct ResetPolicy {
    pub retries: u32,
    pub delay: ResetPollDelay,
    /// Wait 50 ms after the reset completes before touching the PHY domain
    /// (every DWC_usb31).
    pub settle_50ms: bool,
}

/// Whether the core needs the slow reset cadence.
pub open spec fn slow_reset(snpsid: u32, version: u32) -> bool {
    let ip = snpsid >> 16u32;
    ip == DWC32_IP || (ip == DWC31_IP && version >= DWC31_REVISION_190A)
}

/// Choose the soft-reset poll policy from GSNPSID and VER_NUMBER (read only
/// on a DWC_usb31/32 core; 0 otherwise).
pub fn reset_policy(snpsid: u32, version: u32, source_exact: bool) -> (p: ResetPolicy)
    ensures
        p.retries == if source_exact || slow_reset(snpsid, version) {
            10u32
        } else {
            1000u32
        },
        p.delay == if source_exact {
            ResetPollDelay::Millis1
        } else if slow_reset(snpsid, version) {
            ResetPollDelay::Millis20
        } else {
            ResetPollDelay::Micros1
        },
        p.settle_50ms == ((snpsid >> 16u32) == DWC31_IP),
{
    let ip = snpsid >> 16;
    let slow = ip == DWC32_IP || (ip == DWC31_IP && version >= DWC31_REVISION_190A);
    ResetPolicy {
        retries: if source_exact || slow {
            10
        } else {
            1000
        },
        delay: if source_exact {
            ResetPollDelay::Millis1
        } else if slow {
            ResetPollDelay::Millis20
        } else {
            ResetPollDelay::Micros1
        },
        settle_50ms: ip == DWC31_IP,
    }
}

/// Whether the core-reset bit has cleared.
pub fn soft_reset_complete(dctl: u32) -> (done: bool)
    ensures
        done == (dctl & DCTL_CSFTRST == 0),
{
    dctl & DCTL_CSFTRST == 0
}

/// The register values that assert the full core and PHY resets: GCTL
/// CORESOFTRESET, the USB2 PHY soft reset and, for SuperSpeed, the USB3
/// PIPE soft reset.
pub fn core_reset_assert_values(gctl: u32, usb2: u32, usb3: u32) -> (r: (u32, u32, u32))
    ensures
        r.0 == gctl | GCTL_CORESOFTRESET,
        r.1 == usb2 | GUSB2PHYCFG_PHYSOFTRST,
        r.2 == usb3 | GUSB3PIPECTL_PHYSOFTRST,
{
    (gctl | GCTL_CORESOFTRESET, usb2 | GUSB2PHYCFG_PHYSOFTRST, usb3 | GUSB3PIPECTL_PHYSOFTRST)
}

/// The register values that release the core and PHY resets.
pub fn core_reset_release_values(gctl: u32, usb2: u32, usb3: u32) -> (r: (u32, u32, u32))
    ensures
        r.0 == gctl & !GCTL_CORESOFTRESET,
        r.1 == usb2 & !GUSB2PHYCFG_PHYSOFTRST,
        r.2 == usb3 & !GUSB3PIPECTL_PHYSOFTRST,
{
    (gctl & !GCTL_CORESOFTRESET, usb2 & !GUSB2PHYCFG_PHYSOFTRST, usb3 & !GUSB3PIPECTL_PHYSOFTRST)
}

/// Whether the device controller reached the requested halt state.
pub fn device_state_reached(dsts: u32, want_halted: bool) -> (reached: bool)
    ensures
        reached == ((dsts & DSTS_DEVCTRLHLT != 0) == want_halted),
{
    (dsts & DSTS_DEVCTRLHLT != 0) == want_halted
}

/// The event bytes to acknowledge while halting (the GEVNTCOUNT byte count).
pub fn halting_event_count(gevntcount: u32) -> (count: u32)
    ensures
        count == gevntcount & GEVNTCOUNT_MASK,
        count <= GEVNTCOUNT_MASK,
{
    let count = gevntcount & GEVNTCOUNT_MASK;
    assert(count <= 0xfffc) by (bit_vector)
        requires
            count == gevntcount & 0xfffcu32,
    ;
    count
}

/// The Run/Stop transition to perform: the USB2 low-power bits saved (and
/// cleared in GUSB2PHYCFG when any was set), and the DCTL value to write.
pub struct RunStopPlan {
    pub saved_usb2: u32,
    pub usb2_write: Option<u32>,
    pub dctl: u32,
}

/// Plan a Run/Stop transition: SUSPHY and ENBLSLPM are saved and cleared
/// around it; starting writes the Run/Stop value, stopping clears Run/Stop
/// and any link-state request.
pub fn prepare_run_stop(is_on: bool, usb2: u32, dctl: u32, snpsid: u32) -> (p: RunStopPlan)
    ensures
        p.saved_usb2 == usb2 & (GUSB2PHYCFG_SUSPHY | GUSB2PHYCFG_ENBLSLPM),
        p.usb2_write == if p.saved_usb2 != 0 {
            Some(usb2 & !(GUSB2PHYCFG_SUSPHY | GUSB2PHYCFG_ENBLSLPM))
        } else {
            None::<u32>
        },
        is_on ==> {
            &&& p.dctl & DCTL_HIRD_THRES_MASK == DCTL_HIRD_THRES_LITO
            &&& p.dctl & DCTL_TRGTULST_MASK == (if is_dwc3_core(snpsid) && snpsid
                <= DWC3_REVISION_187A {
                DCTL_TRGTULST_RX_DET
            } else {
                0
            })
            &&& p.dctl & DCTL_RUN_STOP == DCTL_RUN_STOP
            &&& p.dctl & !run_stop_fields() == dctl & !run_stop_fields()
            &&& p.dctl == spec_run_stop_value(
                dctl,
                snpsid,
                RunStopOptions { firmware_hird: false, modern_dctl_preserve: false, keep_connect_on_start: false },
            )
        },
        !is_on ==> p.dctl == (dctl & !DCTL_RUN_STOP) & !DCTL_TRGTULST_MASK,
{
    let saved = usb2 & (GUSB2PHYCFG_SUSPHY | GUSB2PHYCFG_ENBLSLPM);
    let usb2_write = if saved != 0 {
        Some(usb2 & !(GUSB2PHYCFG_SUSPHY | GUSB2PHYCFG_ENBLSLPM))
    } else {
        None
    };
    let new_dctl = if is_on {
        run_stop_value(dctl, snpsid)
    } else {
        dctl_safe_value(dctl & !DCTL_RUN_STOP)
    };
    RunStopPlan { saved_usb2: saved, usb2_write, dctl: new_dctl }
}

/// GUSB2PHYCFG with the saved low-power bits restored after the transition.
pub fn restore_usb2_after_run_stop(current: u32, saved: u32) -> (value: u32)
    ensures
        value == current | saved,
{
    current | saved
}

} // verus!
