//! DWC3 gadget defaults and Qualcomm QSCRATCH session configuration.
//!
//! Each register policy is a function from the values read back from the
//! controller to the values to write; the caller performs the accesses.

use vstd::prelude::*;
use crate::mmio::{
    DCFG_FULLSPEED, DCFG_HIGHSPEED, DCFG_IGNSTRMPP, DCFG_LPM_CAP, DCFG_NUMP_MASK,
    DCFG_NUMP_SHIFT, DCFG_SPEED_MASK, DCFG_SUPERSPEED, DCTL_APPL1RES, DCTL_HIRD_THRES_LITO, DCTL_HIRD_THRES_XBL,
    DCTL_HIRD_THRES_MASK, DCTL_KEEP_CONNECT, DCTL_L1_HIBER_EN, DCTL_RUN_STOP,
    DCTL_TRGTULST_MASK, DCTL_TRGTULST_RX_DET, DSTS_SUPERSPEED, DWC31_GRXTHRCFG_PKTCNTSEL,
    DWC31_IP, DWC31_LINK_LU3LFPSRXTIM_GEN1_BRAMBLE, DWC31_LINK_LU3LFPSRXTIM_GEN1_MASK,
    DWC31_LINK_LU3LFPSRXTIM_GEN2_BRAMBLE, DWC31_LINK_LU3LFPSRXTIM_GEN2_MASK, DWC32_IP,
    DWC3_GRXTHRCFG_PKTCNTSEL, DWC3_IP, DWC3_REVISION_187A, DWC3_REVISION_190A,
    DWC3_REVISION_194A, DWC3_REVISION_220A, DWC3_REVISION_250A, DWC3_REVISION_270A,
    DWC3_REVISION_290A, DWC3_REVISION_310A, DWC3_REVISION_IS_DWC31, DWC3_USB31_REVISION_170A,
    DWC3_USB31_VER_TYPE_GA, GCTL_DISSCRAMBLE, GCTL_DSBLCLKGTNG, GCTL_PRTCAPDIR_MASK,
    GCTL_PRTCAP_DEVICE, GCTL_PWRDNSCALE_2, GCTL_PWRDNSCALE_MASK, GCTL_SCALEDOWN_MASK,
    GCTL_SOFITPSYNC, GCTL_U2EXIT_LFPS, GCTL_U2RSTECN, GHWPARAMS0_MDWIDTH_MASK,
    GHWPARAMS0_MDWIDTH_SHIFT, GHWPARAMS7_RAM2_DEPTH_MASK, GHWPARAMS7_RAM2_DEPTH_SHIFT,
    GUSB2PHYCFG_PHYIF_MASK, GUSB2PHYCFG_SUSPHY, GUSB2PHYCFG_ULPI_UTMI,
    GUSB2PHYCFG_USBTRDTIM_MASK, GUSB3PIPECTL_SUSPHY, GUSB3PIPECTL_UX_EXIT_PX,
};

verus! {

/// Whether GSNPSID names a DWC_usb3 core (the 0x5533 prefix).
pub open spec fn is_dwc3_core(snpsid: u32) -> bool {
    snpsid & 0xffff_0000 == 0x5533_0000
}

/// Whether GSNPSID names a DWC_usb31 or DWC_usb32 core.
pub open spec fn is_dwc31_or_dwc32(snpsid: u32) -> bool {
    (snpsid >> 16u32) == DWC31_IP || (snpsid >> 16u32) == DWC32_IP
}

/// The DCFG speed field selected before Run/Stop: full speed when asked;
/// otherwise SuperSpeed when asked, or on a DWC_usb3 core older than 2.20a
/// (the metastability workaround); otherwise High-Speed.
pub open spec fn selected_speed(super_speed: bool, full_speed: bool, snpsid: u32) -> u32 {
    if full_speed {
        DCFG_FULLSPEED
    } else if super_speed || (is_dwc3_core(snpsid) && snpsid < DWC3_REVISION_220A) {
        DCFG_SUPERSPEED
    } else {
        DCFG_HIGHSPEED
    }
}

/// DCFG with only its speed field replaced.
pub fn gadget_speed_value(dcfg: u32, super_speed: bool, full_speed: bool, snpsid: u32) -> (value: u32)
    ensures
        value & DCFG_SPEED_MASK == selected_speed(super_speed, full_speed, snpsid),
        value & !DCFG_SPEED_MASK == dcfg & !DCFG_SPEED_MASK,
{
    let base = dcfg & !DCFG_SPEED_MASK;
    let speed = if full_speed {
        DCFG_FULLSPEED
    } else {
        let force_superspeed = (snpsid & 0xffff_0000) == 0x5533_0000 && snpsid
            < DWC3_REVISION_220A;
        if super_speed || force_superspeed {
            DCFG_SUPERSPEED
        } else {
            DCFG_HIGHSPEED
        }
    };
    let value = base | speed;
    assert(value & 7 == speed && value & !7u32 == dcfg & !7u32) by (bit_vector)
        requires
            base == dcfg & !7u32,
            value == base | speed,
            speed <= 7,
    ;
    value
}

/// The DCTL fields that a Run/Stop start programs.
pub open spec fn run_stop_fields() -> u32 {
    DCTL_HIRD_THRES_MASK | DCTL_TRGTULST_MASK | DCTL_RUN_STOP
}

/// The DCTL value that starts the device: the platform HIRD threshold, a
/// cleared link-state request (RX.Detect on a DWC_usb3 core up to 1.87a),
/// KEEP_CONNECT cleared, and Run/Stop set; every other field is kept.
pub fn run_stop_value(dctl: u32, snpsid: u32) -> (value: u32)
    ensures
        value & DCTL_HIRD_THRES_MASK == DCTL_HIRD_THRES_LITO,
        value & DCTL_TRGTULST_MASK == (if is_dwc3_core(snpsid) && snpsid <= DWC3_REVISION_187A {
            DCTL_TRGTULST_RX_DET
        } else {
            0
        }),
        value & DCTL_KEEP_CONNECT == (if is_dwc3_core(snpsid) && snpsid <= DWC3_REVISION_187A {
            DCTL_KEEP_CONNECT
        } else {
            0
        }),
        value & DCTL_RUN_STOP == DCTL_RUN_STOP,
        value & !run_stop_fields() == dctl & !run_stop_fields(),
        value == spec_run_stop_value(
            dctl,
            snpsid,
            RunStopOptions { firmware_hird: false, modern_dctl_preserve: false, keep_connect_on_start: false },
        ),
{
    let dwc3 = (snpsid & 0xffff_0000) == 0x5533_0000;
    let legacy = dwc3 && snpsid <= DWC3_REVISION_187A;
    let d1 = (dctl & !DCTL_HIRD_THRES_MASK) | DCTL_HIRD_THRES_LITO;
    let d2 = d1 & !DCTL_TRGTULST_MASK;
    assert(d2 & !0x8_0000u32 == d2) by (bit_vector)
        requires
            d2 == d1 & !0x1e_0000u32,
    ;
    let d3 = if legacy {
        d2 | DCTL_TRGTULST_RX_DET
    } else if dwc3 && snpsid >= DWC3_REVISION_194A {
        d2 & !DCTL_KEEP_CONNECT
    } else {
        d2
    };
    let ip = snpsid >> 16;
    let d4 = if ip == DWC31_IP || ip == DWC32_IP {
        d3 & !DCTL_KEEP_CONNECT
    } else {
        d3
    };
    assert(legacy ==> ip != DWC31_IP && ip != DWC32_IP) by (bit_vector)
        requires
            ip == snpsid >> 16u32,
            legacy ==> (snpsid & 0xffff_0000u32) == 0x5533_0000u32,
            DWC31_IP == 0x3331u32,
            DWC32_IP == 0x3332u32,
    ;
    let value = d4 | DCTL_RUN_STOP;
    let t: u32 = if legacy {
        0xa_0000u32
    } else {
        0u32
    };
    assert(value == (d2 | t) | 0x8000_0000u32) by (bit_vector)
        requires
            d2 & !0x8_0000u32 == d2,
            legacy ==> d4 == d2 | 0xa_0000u32,
            !legacy ==> d4 == d2 || d4 == d2 & !0x8_0000u32,
            t == (if legacy {
                0xa_0000u32
            } else {
                0u32
            }),
            value == d4 | 0x8000_0000u32,
    ;
    assert({
        &&& value & 0x1f00_0000u32 == 0x1000_0000u32
        &&& value & 0x1e_0000u32 == t
        &&& (t == 0xa_0000u32 ==> value & 0x8_0000u32 == 0x8_0000u32)
        &&& (t == 0u32 ==> value & 0x8_0000u32 == 0u32)
        &&& (t == 0u32 ==> value & 0x1e_0000u32 == 0u32)
        &&& value & 0x8000_0000u32 == 0x8000_0000u32
        &&& value & !(0x1f00_0000u32 | 0x1e_0000u32 | 0x8000_0000u32) == dctl & !(0x1f00_0000u32
            | 0x1e_0000u32 | 0x8000_0000u32)
    }) by (bit_vector)
        requires
            d1 == (dctl & !0x1f00_0000u32) | 0x1000_0000u32,
            d2 == d1 & !0x1e_0000u32,
            t == 0xa_0000u32 || t == 0,
            value == (d2 | t) | 0x8000_0000u32,
    ;
    value
}

/// The build options that shape the Run/Stop DCTL value.
#[derive(Clone, Copy, PartialEq, Eq, Debug)]
pub struct RunStopOptions {
    /// The staged handoff probe build (without the device-tree HIRD
    /// option): keep the boot firmware's HIRD threshold 7 and APPL1RES.
    pub firmware_hird: bool,
    /// Clear the link-state request field only on the DWC_usb3 cores up to
    /// 1.87a, where it is one; on later cores those bits are other fields.
    pub modern_dctl_preserve: bool,
    /// Set KEEP_CONNECT again on a DWC_usb31/32 start.
    pub keep_connect_on_start: bool,
}

/// The Run/Stop DCTL value under the build options: the HIRD threshold
/// (the platform value, or the firmware's with APPL1RES), the link-state
/// request cleared (RX.Detect on a DWC_usb3 core up to 1.87a), KEEP_CONNECT
/// cleared on DWC_usb3 1.94a+ and on DWC_usb31/32 (set again when the build
/// asks), and Run/Stop set.
pub open spec fn spec_run_stop_value(dctl: u32, snpsid: u32, o: RunStopOptions) -> u32 {
    let dwc3 = is_dwc3_core(snpsid);
    let legacy = dwc3 && snpsid <= DWC3_REVISION_187A;
    let d1 = if o.firmware_hird {
        ((dctl & !DCTL_HIRD_THRES_MASK) | DCTL_HIRD_THRES_XBL) | DCTL_APPL1RES
    } else {
        (dctl & !DCTL_HIRD_THRES_MASK) | DCTL_HIRD_THRES_LITO
    };
    let d2 = if !o.modern_dctl_preserve || legacy {
        d1 & !DCTL_TRGTULST_MASK
    } else {
        d1
    };
    let d3 = if legacy {
        d2 | DCTL_TRGTULST_RX_DET
    } else if dwc3 && snpsid >= DWC3_REVISION_194A {
        d2 & !DCTL_KEEP_CONNECT
    } else {
        d2
    };
    let ip = snpsid >> 16u32;
    let d4 = if ip == DWC31_IP || ip == DWC32_IP {
        if o.keep_connect_on_start {
            (d3 & !DCTL_KEEP_CONNECT) | DCTL_KEEP_CONNECT
        } else {
            d3 & !DCTL_KEEP_CONNECT
        }
    } else {
        d3
    };
    d4 | DCTL_RUN_STOP
}

/// The Run/Stop DCTL value under the build options.
pub fn run_stop_value_for(dctl: u32, snpsid: u32, o: RunStopOptions) -> (value: u32)
    ensures
        value == spec_run_stop_value(dctl, snpsid, o),
{
    let dwc3 = (snpsid & 0xffff_0000) == 0x5533_0000;
    let legacy = dwc3 && snpsid <= DWC3_REVISION_187A;
    let d1 = if o.firmware_hird {
        ((dctl & !DCTL_HIRD_THRES_MASK) | DCTL_HIRD_THRES_XBL) | DCTL_APPL1RES
    } else {
        (dctl & !DCTL_HIRD_THRES_MASK) | DCTL_HIRD_THRES_LITO
    };
    let d2 = if !o.modern_dctl_preserve || legacy {
        d1 & !DCTL_TRGTULST_MASK
    } else {
        d1
    };
    let d3 = if legacy {
        d2 | DCTL_TRGTULST_RX_DET
    } else if dwc3 && snpsid >= DWC3_REVISION_194A {
        d2 & !DCTL_KEEP_CONNECT
    } else {
        d2
    };
    let ip = snpsid >> 16;
    let d4 = if ip == DWC31_IP || ip == DWC32_IP {
        if o.keep_connect_on_start {
            (d3 & !DCTL_KEEP_CONNECT) | DCTL_KEEP_CONNECT
        } else {
            d3 & !DCTL_KEEP_CONNECT
        }
    } else {
        d3
    };
    d4 | DCTL_RUN_STOP
}

/// Calculate DCFG.NUMP from the receive FIFO capacity: the FIFO bytes less
/// the 40 reserved for headers, in KiB, capped at 16. An empty or tiny FIFO
/// gives 0 rather than a wrapped value.
pub fn gadget_nump(ram2_depth: u32, mdwidth_bits: u32) -> (nump: u32)
    ensures
        nump == ({
            let fifo = (ram2_depth as int * mdwidth_bits as int) / 8;
            let blocks = if fifo >= 40 {
                (fifo - 40) / 1024
            } else {
                0
            };
            if blocks < 16 {
                blocks
            } else {
                16
            }
        }),
{
    assert(ram2_depth as u64 * mdwidth_bits as u64 <= u64::MAX) by (nonlinear_arith)
        requires
            ram2_depth <= u32::MAX,
            mdwidth_bits <= u32::MAX,
    ;
    let fifo_bytes: u64 = (ram2_depth as u64 * mdwidth_bits as u64) / 8;
    let spare: u64 = if fifo_bytes >= 40 {
        fifo_bytes - 40
    } else {
        0
    };
    let blocks: u64 = spare / 1024;
    if blocks < 16 {
        blocks as u32
    } else {
        16
    }
}

/// The controller revision a DWC3 policy compares against: VER_NUMBER with
/// the DWC_usb31 marker on a DWC_usb31/32 core, GSNPSID otherwise.
pub open spec fn core_revision(snpsid: u32, ver_number: u32) -> u32 {
    if is_dwc31_or_dwc32(snpsid) {
        ver_number | DWC3_REVISION_IS_DWC31
    } else {
        snpsid
    }
}

/// The controller revision a DWC3 policy compares against.
pub fn controller_revision(snpsid: u32, ver_number: u32) -> (revision: u32)
    ensures
        revision == core_revision(snpsid, ver_number),
{
    let ip = snpsid >> 16;
    if ip == DWC31_IP || ip == DWC32_IP {
        ver_number | DWC3_REVISION_IS_DWC31
    } else {
        snpsid
    }
}

/// Android's USB2 Connect Done link policy: below SuperSpeed on a core newer
/// than 1.94a, enable LPM in DCFG and program the platform HIRD threshold
/// with L1 hibernation off in DCTL. `None` when the policy does not apply.
pub fn hs_connect_done_policy(snpsid: u32, ver_number: u32, speed: u32, dcfg: u32, dctl: u32) -> (r:
    Option<(u32, u32)>)
    ensures
        match r {
            Some((new_dcfg, new_dctl)) => {
                &&& core_revision(snpsid, ver_number) > DWC3_REVISION_194A
                &&& speed != DSTS_SUPERSPEED
                &&& new_dcfg == dcfg | DCFG_LPM_CAP
                &&& new_dctl == (dctl & !(DCTL_HIRD_THRES_MASK | DCTL_L1_HIBER_EN))
                    | DCTL_HIRD_THRES_LITO
            },
            None => core_revision(snpsid, ver_number) <= DWC3_REVISION_194A || speed
                == DSTS_SUPERSPEED,
        },
{
    let revision = controller_revision(snpsid, ver_number);
    if revision <= DWC3_REVISION_194A || speed == DSTS_SUPERSPEED {
        return None;
    }
    Some(
        (
            dcfg | DCFG_LPM_CAP,
            (dctl & !(DCTL_HIRD_THRES_MASK | DCTL_L1_HIBER_EN)) | DCTL_HIRD_THRES_LITO,
        ),
    )
}

/// The global-control writes after a core reset on a DWC_usb3 core.
pub struct GlobalControlPlan {
    /// GCTL with scale-down and scrambling off and clock gating disabled
    /// (plus U2RSTECN before 1.90a).
    pub gctl: u32,
    /// The quirk bits that were applied.
    pub applied: u32,
    /// GUCTL2.RST_ACTBITLATER must be set (3.10a and later).
    pub set_rst_actbitlater: bool,
}

/// Plan the global-control writes. Only a recognised DWC_usb3 core is
/// touched: `None` for any other GSNPSID.
pub fn global_control_plan(snpsid: u32, gctl: u32) -> (r: Option<GlobalControlPlan>)
    ensures
        match r {
            Some(plan) => {
                let base = (gctl & !(GCTL_SCALEDOWN_MASK | GCTL_DISSCRAMBLE)) | GCTL_DSBLCLKGTNG;
                &&& is_dwc3_core(snpsid)
                &&& plan.gctl == if snpsid < DWC3_REVISION_190A {
                    base | GCTL_U2RSTECN
                } else {
                    base
                }
                &&& plan.applied == if snpsid < DWC3_REVISION_190A {
                    GCTL_DSBLCLKGTNG | GCTL_U2RSTECN
                } else {
                    GCTL_DSBLCLKGTNG
                }
                &&& plan.set_rst_actbitlater == (snpsid >= DWC3_REVISION_310A)
            },
            None => !is_dwc3_core(snpsid),
        },
{
    if (snpsid & 0xffff_0000) != 0x5533_0000 {
        return None;
    }
    let mut value = gctl & !(GCTL_SCALEDOWN_MASK | GCTL_DISSCRAMBLE);
    value = value | GCTL_DSBLCLKGTNG;
    let mut applied = GCTL_DSBLCLKGTNG;
    if snpsid < DWC3_REVISION_190A {
        value = value | GCTL_U2RSTECN;
        applied = applied | GCTL_U2RSTECN;
    }
    Some(
        GlobalControlPlan {
            gctl: value,
            applied,
            set_rst_actbitlater: snpsid >= DWC3_REVISION_310A,
        },
    )
}

/// The two GCTL writes of Android's device-mode selection: first the port
/// capability direction, then U2RSTECN and U2EXIT_LFPS on, SOFITPSYNC off,
/// and the power-down scale at 2.
pub fn device_mode_gctl(gctl: u32) -> (r: (u32, u32))
    ensures
        r.0 == (gctl & !GCTL_PRTCAPDIR_MASK) | GCTL_PRTCAP_DEVICE,
        r.1 == ((r.0 | GCTL_U2RSTECN | GCTL_U2EXIT_LFPS) & !(GCTL_SOFITPSYNC
            | GCTL_PWRDNSCALE_MASK)) | GCTL_PWRDNSCALE_2,
{
    let first = (gctl & !GCTL_PRTCAPDIR_MASK) | GCTL_PRTCAP_DEVICE;
    let second = ((first | GCTL_U2RSTECN | GCTL_U2EXIT_LFPS) & !(GCTL_SOFITPSYNC
        | GCTL_PWRDNSCALE_MASK)) | GCTL_PWRDNSCALE_2;
    (first, second)
}

/// The Bramble LFPS exit-response timer value for a DWC_usb31 1.70a GA core;
/// `None` on any other core.
pub fn lfps_exit_timer_value(snpsid: u32, ver_number: u32, ver_type: u32, current: u32) -> (r:
    Option<u32>)
    ensures
        match r {
            Some(v) => {
                &&& (snpsid >> 16u32) == DWC31_IP
                &&& (ver_number | DWC3_REVISION_IS_DWC31) == DWC3_USB31_REVISION_170A
                &&& ver_type == DWC3_USB31_VER_TYPE_GA
                &&& v == (current & !(DWC31_LINK_LU3LFPSRXTIM_GEN2_MASK
                    | DWC31_LINK_LU3LFPSRXTIM_GEN1_MASK)) | DWC31_LINK_LU3LFPSRXTIM_GEN2_BRAMBLE
                    | DWC31_LINK_LU3LFPSRXTIM_GEN1_BRAMBLE
            },
            None => !((snpsid >> 16u32) == DWC31_IP && (ver_number | DWC3_REVISION_IS_DWC31)
                == DWC3_USB31_REVISION_170A && ver_type == DWC3_USB31_VER_TYPE_GA),
        },
{
    if snpsid >> 16 != DWC31_IP {
        return None;
    }
    let revision = ver_number | DWC3_REVISION_IS_DWC31;
    if revision != DWC3_USB31_REVISION_170A || ver_type != DWC3_USB31_VER_TYPE_GA {
        return None;
    }
    Some(
        (current & !(DWC31_LINK_LU3LFPSRXTIM_GEN2_MASK | DWC31_LINK_LU3LFPSRXTIM_GEN1_MASK))
            | DWC31_LINK_LU3LFPSRXTIM_GEN2_BRAMBLE | DWC31_LINK_LU3LFPSRXTIM_GEN1_BRAMBLE,
    )
}

/// GUSB3PIPECTL with UX_EXIT_PX cleared on a DWC_usb31 core of revision
/// 1.70a or later; `None` on any other core.
pub fn usb31_phy_setup_value(snpsid: u32, ver_number: u32, before: u32) -> (r: Option<u32>)
    ensures
        match r {
            Some(v) => (snpsid >> 16u32) == DWC31_IP && (ver_number | DWC3_REVISION_IS_DWC31)
                >= DWC3_USB31_REVISION_170A && v == before & !GUSB3PIPECTL_UX_EXIT_PX,
            None => !((snpsid >> 16u32) == DWC31_IP && (ver_number | DWC3_REVISION_IS_DWC31)
                >= DWC3_USB31_REVISION_170A),
        },
{
    if snpsid >> 16 != DWC31_IP {
        return None;
    }
    if (ver_number | DWC3_REVISION_IS_DWC31) < DWC3_USB31_REVISION_170A {
        return None;
    }
    Some(before & !GUSB3PIPECTL_UX_EXIT_PX)
}

/// The USB2 turnaround time (PHY clocks) selected at build time: one of the
/// values 5..8 and 10..15 when the build names it exactly, else the 8-bit
/// UTMI default of 9.
pub open spec fn spec_usbtrdtim(setting: Option<Seq<u8>>) -> u32 {
    match setting {
        Some(s) => if s.len() == 1 && 53 <= s[0] <= 56 {
            (s[0] - 48) as u32
        } else if s.len() == 2 && s[0] == 49 && 48 <= s[1] <= 53 {
            (10 + s[1] - 48) as u32
        } else {
            9
        },
        None => 9,
    }
}

/// Select the USB2 turnaround time from the build setting.
pub fn usbtrdtim_from_setting(setting: Option<&[u8]>) -> (trdtim: u32)
    ensures
        trdtim == spec_usbtrdtim(
            match setting {
                Some(s) => Some(s@),
                None => None,
            },
        ),
        5 <= trdtim <= 15,
{
    match setting {
        Some(s) => {
            if s.len() == 1 && s[0] >= 53 && s[0] <= 56 {
                (s[0] - 48) as u32
            } else if s.len() == 2 && s[0] == 49 && s[1] >= 48 && s[1] <= 53 {
                (10 + s[1] - 48) as u32
            } else {
                9
            }
        },
        None => 9,
    }
}

/// GUSB2PHYCFG for the UTMI interface: ULPI and 16-bit PHYIF off and the
/// given turnaround time; the power-management bits are kept.
pub fn usb2_phy_interface_value(usb2: u32, trdtim: u32) -> (value: u32)
    requires
        trdtim <= 15,
    ensures
        value == (usb2 & !(GUSB2PHYCFG_ULPI_UTMI | GUSB2PHYCFG_PHYIF_MASK
            | GUSB2PHYCFG_USBTRDTIM_MASK)) | (trdtim << 10u32),
        value & GUSB2PHYCFG_USBTRDTIM_MASK == trdtim << 10u32,
{
    let value = (usb2 & !(GUSB2PHYCFG_ULPI_UTMI | GUSB2PHYCFG_PHYIF_MASK
        | GUSB2PHYCFG_USBTRDTIM_MASK)) | (trdtim << 10);
    assert(value & 0x3c00u32 == trdtim << 10u32) by (bit_vector)
        requires
            value == (usb2 & !(0x10u32 | 0x8u32 | 0x3c00u32)) | (trdtim << 10u32),
            trdtim <= 15,
    ;
    value
}

/// GUSB2PHYCFG before the device-core soft reset: the UTMI interface value
/// with SUSPHY asserted.
pub fn usb2_phy_interface_pre_reset_value(usb2: u32, trdtim: u32) -> (value: u32)
    requires
        trdtim <= 15,
    ensures
        value == ((usb2 & !(GUSB2PHYCFG_ULPI_UTMI | GUSB2PHYCFG_PHYIF_MASK
            | GUSB2PHYCFG_USBTRDTIM_MASK)) | (trdtim << 10u32)) | GUSB2PHYCFG_SUSPHY,
{
    usb2_phy_interface_value(usb2, trdtim) | GUSB2PHYCFG_SUSPHY
}

/// GUSB2PHYCFG and GUSB3PIPECTL with their SUSPHY bits set.
pub fn gadget_susphy_values(usb2: u32, usb3: u32) -> (r: (u32, u32))
    ensures
        r.0 == usb2 | GUSB2PHYCFG_SUSPHY,
        r.1 == usb3 | GUSB3PIPECTL_SUSPHY,
{
    (usb2 | GUSB2PHYCFG_SUSPHY, usb3 | GUSB3PIPECTL_SUSPHY)
}

/// The DWC_usb31 reference programming the generic global-control path skips.
pub struct Usb31Deltas {
    /// Rewrite GUCTL1 (revision 2.50a or later) ...
    pub write_guctl1: bool,
    /// ... with DEV_L1_EXIT_BY_HW set (revision 2.90a or later).
    pub set_dev_l1_exit_by_hw: bool,
    /// Set GUCTL3.USB20_RETRY_DISABLE (1.70a GA silicon only).
    pub set_usb20_retry_disable: bool,
    /// Set GUCTL1.IP_GAP_ADD_ON (1.70a or later).
    pub set_ip_gap_add_on: bool,
    /// Program GSBUSCFG1.PIPETRANSLIMIT (2.70a or later).
    pub set_pipe_trans_limit: bool,
}

/// Decide the DWC_usb31 reference programming. The revision carries the
/// DWC_usb31 marker bit, so it compares as newer than every DWC_usb3
/// revision. `None` on any other core.
pub fn usb31_reference_deltas(snpsid: u32, ver_number: u32, ver_type: u32) -> (r: Option<
    Usb31Deltas,
>)
    ensures
        match r {
            Some(d) => {
                let revision = ver_number | DWC3_REVISION_IS_DWC31;
                &&& (snpsid >> 16u32) == DWC31_IP
                &&& d.write_guctl1 == (revision >= DWC3_REVISION_250A)
                &&& d.set_dev_l1_exit_by_hw == (revision >= DWC3_REVISION_250A && revision
                    >= DWC3_REVISION_290A)
                &&& d.set_usb20_retry_disable == (revision == DWC3_USB31_REVISION_170A
                    && ver_type == DWC3_USB31_VER_TYPE_GA)
                &&& d.set_ip_gap_add_on == (revision >= DWC3_USB31_REVISION_170A)
                &&& d.set_pipe_trans_limit == (revision >= DWC3_REVISION_270A)
            },
            None => (snpsid >> 16u32) != DWC31_IP,
        },
{
    if snpsid >> 16 != DWC31_IP {
        return None;
    }
    let revision = ver_number | DWC3_REVISION_IS_DWC31;
    let write_guctl1 = revision >= DWC3_REVISION_250A;
    Some(
        Usb31Deltas {
            write_guctl1,
            set_dev_l1_exit_by_hw: write_guctl1 && revision >= DWC3_REVISION_290A,
            set_usb20_retry_disable: revision == DWC3_USB31_REVISION_170A && ver_type
                == DWC3_USB31_VER_TYPE_GA,
            set_ip_gap_add_on: revision >= DWC3_USB31_REVISION_170A,
            set_pipe_trans_limit: revision >= DWC3_REVISION_270A,
        },
    )
}

/// The receive-threshold packet-count selector of a core IP, if known.
pub open spec fn pktcntsel_for(ip: u32) -> Option<u32> {
    if ip == DWC3_IP {
        Some(DWC3_GRXTHRCFG_PKTCNTSEL)
    } else if ip == DWC31_IP || ip == DWC32_IP {
        Some(DWC31_GRXTHRCFG_PKTCNTSEL)
    } else {
        None
    }
}

/// The gadget-start defaults: GRXTHRCFG with the packet-count selector
/// cleared (so DCFG.NUMP drives ACK-TP), and DCFG with NUMP computed from the
/// hardware parameters and IGNSTRMPP cleared. `None` on an unknown core.
pub fn gadget_start_plan(
    snpsid: u32,
    grxthrcfg: u32,
    hwparams0: u32,
    hwparams7: u32,
    dcfg: u32,
) -> (r: Option<(u32, u32)>)
    ensures
        match r {
            Some((rx, new_dcfg)) => {
                let sel = pktcntsel_for(snpsid >> 16u32);
                let mdwidth = (hwparams0 >> GHWPARAMS0_MDWIDTH_SHIFT) & GHWPARAMS0_MDWIDTH_MASK;
                let depth = (hwparams7 >> GHWPARAMS7_RAM2_DEPTH_SHIFT)
                    & GHWPARAMS7_RAM2_DEPTH_MASK;
                &&& sel is Some
                &&& rx == grxthrcfg & !sel.unwrap()
                &&& exists|nump: u32|
                    nump <= 16 && new_dcfg == (((dcfg & !DCFG_NUMP_MASK) | (nump
                        << DCFG_NUMP_SHIFT)) & !DCFG_IGNSTRMPP) && nump == ({
                        let fifo = (depth as int * mdwidth as int) / 8;
                        let blocks = if fifo >= 40 {
                            (fifo - 40) / 1024
                        } else {
                            0
                        };
                        if blocks < 16 {
                            blocks
                        } else {
                            16
                        }
                    })
            },
            None => pktcntsel_for(snpsid >> 16u32) is None,
        },
{
    let ip = snpsid >> 16;
    let pktcntsel = if ip == DWC3_IP {
        DWC3_GRXTHRCFG_PKTCNTSEL
    } else if ip == DWC31_IP || ip == DWC32_IP {
        DWC31_GRXTHRCFG_PKTCNTSEL
    } else {
        return None;
    };
    let rx = grxthrcfg & !pktcntsel;
    let mdwidth = (hwparams0 >> GHWPARAMS0_MDWIDTH_SHIFT) & GHWPARAMS0_MDWIDTH_MASK;
    let depth = (hwparams7 >> GHWPARAMS7_RAM2_DEPTH_SHIFT) & GHWPARAMS7_RAM2_DEPTH_MASK;
    let nump = gadget_nump(depth, mdwidth);
    let new_dcfg = ((dcfg & !DCFG_NUMP_MASK) | (nump << DCFG_NUMP_SHIFT)) & !DCFG_IGNSTRMPP;
    Some((rx, new_dcfg))
}

/// A QSCRATCH read-modify-write that sets `mask`.
pub fn qscratch_set_value(current: u32, mask: u32) -> (value: u32)
    ensures
        value == current | mask,
{
    current | mask
}

} // verus!
