//! Host-visible readouts: small codes that name a captured controller or
//! PHY state, chosen by a selector string.

use vstd::prelude::*;
use vstd::string::StringSliceAdditionalSpecFns;
use crate::bytes::{ascii, bytes_equal, literal, starts_with};
use crate::harvest::{TraceHarvest, NO_RECORD};
use crate::usb::spec_known_dwc_core_ip;
use crate::mmio::{
    DWC31_IP, DWC32_IP, DWC31_LINK_GDBGLTSSM, GDBGLTSSM,
    DCTL_RUN_STOP, DSTS_CONNECTSPD_MASK, DSTS_DEVCTRLHLT, GCTL_PRTCAPDIR_MASK, GCTL_PRTCAP_DEVICE,
    GUSB3PIPECTL_PHYSOFTRST, GUSB3PIPECTL_SUSPHY, QMP_PHYSTATUS, GEVNTCOUNT_MASK, TRB_HWO,
};

verus! {

/// The SuperSpeed state captured at a chosen boundary of the handoff.
#[derive(Clone, Copy, PartialEq, Eq, Debug)]
pub struct SsSnapshot {
    /// Whether a snapshot was captured at all.
    pub valid: bool,
    pub dsts: u32,
    pub dctl: u32,
    pub pipe: u32,
    pub gctl: u32,
    pub qscratch: u32,
    pub qscratch_general: u32,
    /// QMP status word: PHYSTATUS, PCS_START_CONTROL at 17:16, TYPEC_CTRL
    /// bit 0 at 24.
    pub qmp: u32,
    pub ltssm: u32,
    /// Four domain bits: core clock, GDSC, core branch, UTMI branch.
    pub domain: u32,
    pub qmp_status2: u32,
    pub qmp_power: u32,
    pub qmp_aux_branch: u32,
    pub qmp_pipe_branch: u32,
    pub qmp_com_aux_branch: u32,
    /// DCTL before and right after the Run/Stop write, and DSTS later.
    pub runstop_pre_dctl: u32,
    pub runstop_post_dctl: u32,
    pub runstop_post_dsts: u32,
}

/// 1 for true, 0 for false.
pub open spec fn bit(b: bool) -> u32 {
    if b {
        1
    } else {
        0
    }
}

fn flag(b: bool) -> (r: u32)
    ensures
        r == bit(b),
{
    if b {
        1
    } else {
        0
    }
}

/// A SuperSpeed state readout selector.
#[derive(Clone, Copy, PartialEq, Eq, Debug)]
pub enum SsSelector {
    SsSpeed,
    SsLink,
    SsPipe,
    SsGctl,
    SsQmp,
    SsVbus,
    SsDctl,
    SsDomain,
    SsDomainCore,
    SsDomainGdsc,
    SsDomainCoreBranch,
    SsDomainUtmiBranch,
    SsGctlDevice,
    SsQmpPhystatus,
    SsQmpStart0,
    SsQmpStart1,
    SsQmpTypec0,
    SsQmpRxeq,
    SsQmpComPower,
    SsQmpPcsPower,
    SsQmpAuxBranch,
    SsQmpPipeBranch,
    SsQmpComAuxBranch,
    SsQscratchUtmiSel,
    SsQscratchPhystatusSw,
    SsQscratchUtmiDis,
    SsLtssm,
    SsLtssmBit0,
    SsLtssmBit1,
    SsLtssmBit1Wide,
    SsLtssmBit2,
    SsLtssmBit3,
}

/// The SuperSpeed selector a name is, if any.
pub open spec fn spec_parse_ss(name: Seq<u8>) -> Option<SsSelector> {
    if name == ascii("ss-speed"@) {
        Some(SsSelector::SsSpeed)
    } else if name == ascii("ss-link"@) {
        Some(SsSelector::SsLink)
    } else if name == ascii("ss-pipe"@) {
        Some(SsSelector::SsPipe)
    } else if name == ascii("ss-gctl"@) {
        Some(SsSelector::SsGctl)
    } else if name == ascii("ss-qmp"@) {
        Some(SsSelector::SsQmp)
    } else if name == ascii("ss-vbus"@) {
        Some(SsSelector::SsVbus)
    } else if name == ascii("ss-dctl"@) {
        Some(SsSelector::SsDctl)
    } else if name == ascii("ss-domain"@) {
        Some(SsSelector::SsDomain)
    } else if name == ascii("ss-domain-core"@) {
        Some(SsSelector::SsDomainCore)
    } else if name == ascii("ss-domain-gdsc"@) {
        Some(SsSelector::SsDomainGdsc)
    } else if name == ascii("ss-domain-core-branch"@) {
        Some(SsSelector::SsDomainCoreBranch)
    } else if name == ascii("ss-domain-utmi-branch"@) {
        Some(SsSelector::SsDomainUtmiBranch)
    } else if name == ascii("ss-gctl-device"@) {
        Some(SsSelector::SsGctlDevice)
    } else if name == ascii("ss-qmp-phystatus"@) {
        Some(SsSelector::SsQmpPhystatus)
    } else if name == ascii("ss-qmp-start0"@) {
        Some(SsSelector::SsQmpStart0)
    } else if name == ascii("ss-qmp-start1"@) {
        Some(SsSelector::SsQmpStart1)
    } else if name == ascii("ss-qmp-typec0"@) {
        Some(SsSelector::SsQmpTypec0)
    } else if name == ascii("ss-qmp-rxeq"@) {
        Some(SsSelector::SsQmpRxeq)
    } else if name == ascii("ss-qmp-com-power"@) {
        Some(SsSelector::SsQmpComPower)
    } else if name == ascii("ss-qmp-pcs-power"@) {
        Some(SsSelector::SsQmpPcsPower)
    } else if name == ascii("ss-qmp-aux-branch"@) {
        Some(SsSelector::SsQmpAuxBranch)
    } else if name == ascii("ss-qmp-pipe-branch"@) {
        Some(SsSelector::SsQmpPipeBranch)
    } else if name == ascii("ss-qmp-com-aux-branch"@) {
        Some(SsSelector::SsQmpComAuxBranch)
    } else if name == ascii("ss-qscratch-utmi-sel"@) {
        Some(SsSelector::SsQscratchUtmiSel)
    } else if name == ascii("ss-qscratch-phystatus-sw"@) {
        Some(SsSelector::SsQscratchPhystatusSw)
    } else if name == ascii("ss-qscratch-utmi-dis"@) {
        Some(SsSelector::SsQscratchUtmiDis)
    } else if name == ascii("ss-ltssm"@) {
        Some(SsSelector::SsLtssm)
    } else if name == ascii("ss-ltssm-bit0"@) {
        Some(SsSelector::SsLtssmBit0)
    } else if name == ascii("ss-ltssm-bit1"@) {
        Some(SsSelector::SsLtssmBit1)
    } else if name == ascii("ss-ltssm-bit1-wide"@) {
        Some(SsSelector::SsLtssmBit1Wide)
    } else if name == ascii("ss-ltssm-bit2"@) {
        Some(SsSelector::SsLtssmBit2)
    } else if name == ascii("ss-ltssm-bit3"@) {
        Some(SsSelector::SsLtssmBit3)
    } else {
        None
    }
}

fn parse_ss(name: &[u8]) -> (r: Option<SsSelector>)
    ensures
        r == spec_parse_ss(name@),
{
    proof {
        reveal_strlit("ss-speed");
        reveal_strlit("ss-link");
        reveal_strlit("ss-pipe");
        reveal_strlit("ss-gctl");
        reveal_strlit("ss-qmp");
        reveal_strlit("ss-vbus");
        reveal_strlit("ss-dctl");
        reveal_strlit("ss-domain");
        reveal_strlit("ss-domain-core");
        reveal_strlit("ss-domain-gdsc");
        reveal_strlit("ss-domain-core-branch");
        reveal_strlit("ss-domain-utmi-branch");
        reveal_strlit("ss-gctl-device");
        reveal_strlit("ss-qmp-phystatus");
        reveal_strlit("ss-qmp-start0");
        reveal_strlit("ss-qmp-start1");
        reveal_strlit("ss-qmp-typec0");
        reveal_strlit("ss-qmp-rxeq");
        reveal_strlit("ss-qmp-com-power");
        reveal_strlit("ss-qmp-pcs-power");
        reveal_strlit("ss-qmp-aux-branch");
        reveal_strlit("ss-qmp-pipe-branch");
        reveal_strlit("ss-qmp-com-aux-branch");
        reveal_strlit("ss-qscratch-utmi-sel");
        reveal_strlit("ss-qscratch-phystatus-sw");
        reveal_strlit("ss-qscratch-utmi-dis");
        reveal_strlit("ss-ltssm");
        reveal_strlit("ss-ltssm-bit0");
        reveal_strlit("ss-ltssm-bit1");
        reveal_strlit("ss-ltssm-bit1-wide");
        reveal_strlit("ss-ltssm-bit2");
        reveal_strlit("ss-ltssm-bit3");
    }
    if bytes_equal(name, literal("ss-speed")) {
        Some(SsSelector::SsSpeed)
    } else if bytes_equal(name, literal("ss-link")) {
        Some(SsSelector::SsLink)
    } else if bytes_equal(name, literal("ss-pipe")) {
        Some(SsSelector::SsPipe)
    } else if bytes_equal(name, literal("ss-gctl")) {
        Some(SsSelector::SsGctl)
    } else if bytes_equal(name, literal("ss-qmp")) {
        Some(SsSelector::SsQmp)
    } else if bytes_equal(name, literal("ss-vbus")) {
        Some(SsSelector::SsVbus)
    } else if bytes_equal(name, literal("ss-dctl")) {
        Some(SsSelector::SsDctl)
    } else if bytes_equal(name, literal("ss-domain")) {
        Some(SsSelector::SsDomain)
    } else if bytes_equal(name, literal("ss-domain-core")) {
        Some(SsSelector::SsDomainCore)
    } else if bytes_equal(name, literal("ss-domain-gdsc")) {
        Some(SsSelector::SsDomainGdsc)
    } else if bytes_equal(name, literal("ss-domain-core-branch")) {
        Some(SsSelector::SsDomainCoreBranch)
    } else if bytes_equal(name, literal("ss-domain-utmi-branch")) {
        Some(SsSelector::SsDomainUtmiBranch)
    } else if bytes_equal(name, literal("ss-gctl-device")) {
        Some(SsSelector::SsGctlDevice)
    } else if bytes_equal(name, literal("ss-qmp-phystatus")) {
        Some(SsSelector::SsQmpPhystatus)
    } else if bytes_equal(name, literal("ss-qmp-start0")) {
        Some(SsSelector::SsQmpStart0)
    } else if bytes_equal(name, literal("ss-qmp-start1")) {
        Some(SsSelector::SsQmpStart1)
    } else if bytes_equal(name, literal("ss-qmp-typec0")) {
        Some(SsSelector::SsQmpTypec0)
    } else if bytes_equal(name, literal("ss-qmp-rxeq")) {
        Some(SsSelector::SsQmpRxeq)
    } else if bytes_equal(name, literal("ss-qmp-com-power")) {
        Some(SsSelector::SsQmpComPower)
    } else if bytes_equal(name, literal("ss-qmp-pcs-power")) {
        Some(SsSelector::SsQmpPcsPower)
    } else if bytes_equal(name, literal("ss-qmp-aux-branch")) {
        Some(SsSelector::SsQmpAuxBranch)
    } else if bytes_equal(name, literal("ss-qmp-pipe-branch")) {
        Some(SsSelector::SsQmpPipeBranch)
    } else if bytes_equal(name, literal("ss-qmp-com-aux-branch")) {
        Some(SsSelector::SsQmpComAuxBranch)
    } else if bytes_equal(name, literal("ss-qscratch-utmi-sel")) {
        Some(SsSelector::SsQscratchUtmiSel)
    } else if bytes_equal(name, literal("ss-qscratch-phystatus-sw")) {
        Some(SsSelector::SsQscratchPhystatusSw)
    } else if bytes_equal(name, literal("ss-qscratch-utmi-dis")) {
        Some(SsSelector::SsQscratchUtmiDis)
    } else if bytes_equal(name, literal("ss-ltssm")) {
        Some(SsSelector::SsLtssm)
    } else if bytes_equal(name, literal("ss-ltssm-bit0")) {
        Some(SsSelector::SsLtssmBit0)
    } else if bytes_equal(name, literal("ss-ltssm-bit1")) {
        Some(SsSelector::SsLtssmBit1)
    } else if bytes_equal(name, literal("ss-ltssm-bit1-wide")) {
        Some(SsSelector::SsLtssmBit1Wide)
    } else if bytes_equal(name, literal("ss-ltssm-bit2")) {
        Some(SsSelector::SsLtssmBit2)
    } else if bytes_equal(name, literal("ss-ltssm-bit3")) {
        Some(SsSelector::SsLtssmBit3)
    } else {
        None
    }
}

/// The value a selector reads from a valid snapshot.
pub open spec fn spec_ss_value(sel: SsSelector, s: SsSnapshot) -> u32 {
    match sel {
        SsSelector::SsSpeed => s.dsts & DSTS_CONNECTSPD_MASK,
        SsSelector::SsLink => (s.dsts >> 18u32) & 0xf,
        SsSelector::SsPipe => bit(s.pipe & GUSB3PIPECTL_SUSPHY != 0) | (bit(s.pipe & GUSB3PIPECTL_PHYSOFTRST != 0) << 1u32) | (bit(s.dctl & DCTL_RUN_STOP != 0) << 2u32) | (bit(s.dsts & DSTS_DEVCTRLHLT != 0) << 3u32),
        SsSelector::SsGctl => ((s.gctl & GCTL_PRTCAPDIR_MASK) >> 12u32) | (((s.gctl >> 6u32) & 3) << 2u32),
        SsSelector::SsQmp => bit(s.qmp & QMP_PHYSTATUS != 0) | (((s.qmp >> 16u32) & 3) << 1u32) | (((s.qmp >> 24u32) & 1) << 3u32),
        SsSelector::SsVbus => (s.qscratch >> 24u32) & 1,
        SsSelector::SsDctl => bit(s.runstop_pre_dctl != 0xffff_ffff && s.runstop_pre_dctl & DCTL_RUN_STOP != 0) | (bit(s.runstop_post_dctl != 0xffff_ffff && s.runstop_post_dctl & DCTL_RUN_STOP != 0) << 1u32) | (bit(s.dctl & DCTL_RUN_STOP != 0) << 2u32) | (bit(s.runstop_post_dsts != 0xffff_ffff && s.runstop_post_dsts & DSTS_DEVCTRLHLT != 0) << 3u32),
        SsSelector::SsDomain => (s.domain + 1) as u32,
        SsSelector::SsDomainCore => s.domain & 1,
        SsSelector::SsDomainGdsc => (s.domain >> 1u32) & 1,
        SsSelector::SsDomainCoreBranch => (s.domain >> 2u32) & 1,
        SsSelector::SsDomainUtmiBranch => (s.domain >> 3u32) & 1,
        SsSelector::SsGctlDevice => bit(s.gctl & GCTL_PRTCAPDIR_MASK == GCTL_PRTCAP_DEVICE),
        SsSelector::SsQmpPhystatus => bit(s.qmp & QMP_PHYSTATUS != 0),
        SsSelector::SsQmpStart0 => (s.qmp >> 16u32) & 1,
        SsSelector::SsQmpStart1 => (s.qmp >> 17u32) & 1,
        SsSelector::SsQmpTypec0 => (s.qmp >> 24u32) & 1,
        SsSelector::SsQmpRxeq => bit(s.qmp_status2 & 8 != 0),
        SsSelector::SsQmpComPower => bit(s.qmp_power & 1 != 0),
        SsSelector::SsQmpPcsPower => bit(s.qmp_power & 2 != 0),
        SsSelector::SsQmpAuxBranch => bit(s.qmp_aux_branch & 1 != 0 && s.qmp_aux_branch & 0x8000_0000 == 0),
        SsSelector::SsQmpPipeBranch => bit(s.qmp_pipe_branch & 1 != 0 && s.qmp_pipe_branch & 0x8000_0000 == 0),
        SsSelector::SsQmpComAuxBranch => bit(s.qmp_com_aux_branch & 1 != 0 && s.qmp_com_aux_branch & 0x8000_0000 == 0),
        SsSelector::SsQscratchUtmiSel => bit(s.qscratch_general & 1 != 0),
        SsSelector::SsQscratchPhystatusSw => bit(s.qscratch_general & 8 != 0),
        SsSelector::SsQscratchUtmiDis => bit(s.qscratch_general & 0x100 != 0),
        SsSelector::SsLtssm => s.ltssm,
        SsSelector::SsLtssmBit0 => s.ltssm & 1,
        SsSelector::SsLtssmBit1 => (s.ltssm >> 1u32) & 1,
        SsSelector::SsLtssmBit1Wide => (s.ltssm >> 1u32) & 1,
        SsSelector::SsLtssmBit2 => (s.ltssm >> 2u32) & 1,
        SsSelector::SsLtssmBit3 => (s.ltssm >> 3u32) & 1,
    }
}

/// Read a selector's value from a valid snapshot.
pub fn ss_value(sel: SsSelector, s: &SsSnapshot) -> (v: u32)
    requires
        s.domain <= 15,
    ensures
        v == spec_ss_value(sel, *s),
{
    match sel {
        SsSelector::SsSpeed => s.dsts & DSTS_CONNECTSPD_MASK,
        SsSelector::SsLink => (s.dsts >> 18u32) & 0xf,
        SsSelector::SsPipe => flag(s.pipe & GUSB3PIPECTL_SUSPHY != 0) | (flag(s.pipe & GUSB3PIPECTL_PHYSOFTRST != 0) << 1u32) | (flag(s.dctl & DCTL_RUN_STOP != 0) << 2u32) | (flag(s.dsts & DSTS_DEVCTRLHLT != 0) << 3u32),
        SsSelector::SsGctl => ((s.gctl & GCTL_PRTCAPDIR_MASK) >> 12u32) | (((s.gctl >> 6u32) & 3) << 2u32),
        SsSelector::SsQmp => flag(s.qmp & QMP_PHYSTATUS != 0) | (((s.qmp >> 16u32) & 3) << 1u32) | (((s.qmp >> 24u32) & 1) << 3u32),
        SsSelector::SsVbus => (s.qscratch >> 24u32) & 1,
        SsSelector::SsDctl => flag(s.runstop_pre_dctl != 0xffff_ffff && s.runstop_pre_dctl & DCTL_RUN_STOP != 0) | (flag(s.runstop_post_dctl != 0xffff_ffff && s.runstop_post_dctl & DCTL_RUN_STOP != 0) << 1u32) | (flag(s.dctl & DCTL_RUN_STOP != 0) << 2u32) | (flag(s.runstop_post_dsts != 0xffff_ffff && s.runstop_post_dsts & DSTS_DEVCTRLHLT != 0) << 3u32),
        SsSelector::SsDomain => s.domain + 1,
        SsSelector::SsDomainCore => s.domain & 1,
        SsSelector::SsDomainGdsc => (s.domain >> 1u32) & 1,
        SsSelector::SsDomainCoreBranch => (s.domain >> 2u32) & 1,
        SsSelector::SsDomainUtmiBranch => (s.domain >> 3u32) & 1,
        SsSelector::SsGctlDevice => flag(s.gctl & GCTL_PRTCAPDIR_MASK == GCTL_PRTCAP_DEVICE),
        SsSelector::SsQmpPhystatus => flag(s.qmp & QMP_PHYSTATUS != 0),
        SsSelector::SsQmpStart0 => (s.qmp >> 16u32) & 1,
        SsSelector::SsQmpStart1 => (s.qmp >> 17u32) & 1,
        SsSelector::SsQmpTypec0 => (s.qmp >> 24u32) & 1,
        SsSelector::SsQmpRxeq => flag(s.qmp_status2 & 8 != 0),
        SsSelector::SsQmpComPower => flag(s.qmp_power & 1 != 0),
        SsSelector::SsQmpPcsPower => flag(s.qmp_power & 2 != 0),
        SsSelector::SsQmpAuxBranch => flag(s.qmp_aux_branch & 1 != 0 && s.qmp_aux_branch & 0x8000_0000 == 0),
        SsSelector::SsQmpPipeBranch => flag(s.qmp_pipe_branch & 1 != 0 && s.qmp_pipe_branch & 0x8000_0000 == 0),
        SsSelector::SsQmpComAuxBranch => flag(s.qmp_com_aux_branch & 1 != 0 && s.qmp_com_aux_branch & 0x8000_0000 == 0),
        SsSelector::SsQscratchUtmiSel => flag(s.qscratch_general & 1 != 0),
        SsSelector::SsQscratchPhystatusSw => flag(s.qscratch_general & 8 != 0),
        SsSelector::SsQscratchUtmiDis => flag(s.qscratch_general & 0x100 != 0),
        SsSelector::SsLtssm => s.ltssm,
        SsSelector::SsLtssmBit0 => s.ltssm & 1,
        SsSelector::SsLtssmBit1 => (s.ltssm >> 1u32) & 1,
        SsSelector::SsLtssmBit1Wide => (s.ltssm >> 1u32) & 1,
        SsSelector::SsLtssmBit2 => (s.ltssm >> 2u32) & 1,
        SsSelector::SsLtssmBit3 => (s.ltssm >> 3u32) & 1,
    }
}

/// Whether `name` begins with the ASCII text `prefix`.
pub open spec fn has_prefix(name: Seq<u8>, prefix: Seq<char>) -> bool {
    ascii(prefix).len() <= name.len() && name.subrange(0, ascii(prefix).len() as int) == ascii(prefix)
}

/// The code a SuperSpeed selector reads when no snapshot was captured, so a
/// missing snapshot never passes for a zero-valued field: 31 for the domain
/// word, 16 for the LTSSM state, 2 for single-bit readouts, 15 otherwise.
pub open spec fn ss_missing_code(name: Seq<u8>) -> u32 {
    if name == ascii("ss-domain"@) {
        31
    } else if has_prefix(name, "ss-domain-"@) || has_prefix(name, "ss-gctl-"@) || has_prefix(
        name,
        "ss-qmp-"@,
    ) || has_prefix(name, "ss-qscratch-"@) {
        2
    } else if name == ascii("ss-ltssm"@) {
        16
    } else if has_prefix(name, "ss-ltssm-bit"@) {
        2
    } else {
        15
    }
}

fn missing_code(name: &[u8]) -> (code: u32)
    ensures
        code == ss_missing_code(name@),
{
    proof {
        reveal_strlit("ss-domain");
        reveal_strlit("ss-domain-");
        reveal_strlit("ss-gctl-");
        reveal_strlit("ss-qmp-");
        reveal_strlit("ss-qscratch-");
        reveal_strlit("ss-ltssm");
        reveal_strlit("ss-ltssm-bit");
    }
    if bytes_equal(name, literal("ss-domain")) {
        31
    } else if starts_with(name, literal("ss-domain-")) || starts_with(name, literal("ss-gctl-"))
        || starts_with(name, literal("ss-qmp-")) || starts_with(name, literal("ss-qscratch-")) {
        2
    } else if bytes_equal(name, literal("ss-ltssm")) {
        16
    } else if starts_with(name, literal("ss-ltssm-bit")) {
        2
    } else {
        15
    }
}

/// The protocol readout of a harvest: 5 once any SETUP arrived; otherwise
/// 0 without a STARTTRANSFER record, 1 when it timed out, and for a
/// completed command 4, 2 or 3 for DWC3 status 0, 1 (No Resource) or other.
pub open spec fn spec_protocol_code(h: TraceHarvest) -> u32 {
    if h.setup > 0 {
        5
    } else if h.outcome == NO_RECORD {
        0
    } else if h.outcome & 0x8000_0000 != 0 {
        1
    } else if h.outcome & 0xf000 == 0 {
        4
    } else if h.outcome & 0xf000 == 0x1000 {
        2
    } else {
        3
    }
}

/// The protocol readout of a harvest.
pub fn protocol_readout_code(h: &TraceHarvest) -> (code: u32)
    ensures
        code == spec_protocol_code(*h),
        code <= 5,
{
    if h.setup > 0 {
        return 5;
    }
    if h.outcome == NO_RECORD {
        return 0;
    }
    if h.outcome & 0x8000_0000 != 0 {
        return 1;
    }
    let status = h.outcome & 0xf000;
    if status == 0 {
        4
    } else if status == 0x1000 {
        2
    } else {
        3
    }
}

/// The readout a selector names: the protocol code; for a SuperSpeed
/// selector (`ss-…`) the sentinel when no snapshot was captured, else the
/// field it names; `None` for a selector these readouts do not serve.
pub open spec fn spec_utmi_readout(name: Seq<u8>, s: SsSnapshot, h: TraceHarvest) -> Option<u32> {
    if name == ascii("protocol"@) {
        Some(spec_protocol_code(h))
    } else if has_prefix(name, "ss-"@) && !s.valid {
        Some(ss_missing_code(name))
    } else {
        match spec_parse_ss(name) {
            Some(sel) => Some(spec_ss_value(sel, s)),
            None => None,
        }
    }
}

/// The readout a selector names.
pub fn utmi_readout_code(selector: &str, s: &SsSnapshot, h: &TraceHarvest) -> (r: Option<u32>)
    requires
        s.domain <= 15,
    ensures
        r == spec_utmi_readout(selector.spec_bytes(), *s, *h),
{
    proof {
        reveal_strlit("protocol");
        reveal_strlit("ss-");
    }
    let name = selector.as_bytes();
    if bytes_equal(name, literal("protocol")) {
        return Some(protocol_readout_code(h));
    }
    if starts_with(name, literal("ss-")) && !s.valid {
        return Some(missing_code(name));
    }
    match parse_ss(name) {
        Some(sel) => Some(ss_value(sel, s)),
        None => None,
    }
}

/// The LTSSM debug register of a core: the DWC_usb31/32 link register,
/// else the global one.
pub fn ltssm_register(snpsid: u32) -> (offset: usize)
    ensures
        offset == if snpsid >> 16u32 == DWC31_IP || snpsid >> 16u32 == DWC32_IP {
            DWC31_LINK_GDBGLTSSM
        } else {
            GDBGLTSSM
        },
{
    let ip = snpsid >> 16;
    if ip == DWC31_IP || ip == DWC32_IP {
        DWC31_LINK_GDBGLTSSM
    } else {
        GDBGLTSSM
    }
}

/// The link state held in an LTSSM debug register (bits 25:22).
pub fn ltssm_state(register: u32) -> (state: u32)
    ensures
        state == (register >> 22u32) & 0xf,
        state <= 15,
{
    let state = (register >> 22) & 0xf;
    assert(state <= 15) by (bit_vector)
        requires
            state == (register >> 22u32) & 0xf,
    ;
    state
}

/// Whether a clock branch is enabled and not reported off (bit 31).
pub open spec fn branch_on(branch: u32) -> bool {
    branch & 1 != 0 && branch & 0x8000_0000 == 0
}

/// The domain bits: a known core answers, the GDSC is on (bit 31), the
/// core clock branch and the UTMI clock branch are on.
pub open spec fn spec_domain(snpsid: u32, gdsc: u32, core_branch: u32, utmi_branch: u32) -> u32 {
    bit(spec_known_dwc_core_ip(snpsid)) | (bit(gdsc & 0x8000_0000 != 0) << 1u32) | (bit(
        branch_on(core_branch),
    ) << 2u32) | (bit(branch_on(utmi_branch)) << 3u32)
}

/// The domain bits of a snapshot.
pub fn ss_domain(snpsid: u32, gdsc: u32, core_branch: u32, utmi_branch: u32) -> (domain: u32)
    ensures
        domain == spec_domain(snpsid, gdsc, core_branch, utmi_branch),
        domain <= 15,
{
    let known = flag(crate::usb::known_dwc_core_ip(snpsid));
    let gdsc_on = flag(gdsc & 0x8000_0000 != 0);
    let core_on = flag(core_branch & 1 != 0 && core_branch & 0x8000_0000 == 0);
    let utmi_on = flag(utmi_branch & 1 != 0 && utmi_branch & 0x8000_0000 == 0);
    let domain = known | (gdsc_on << 1) | (core_on << 2) | (utmi_on << 3);
    assert(domain <= 15) by (bit_vector)
        requires
            known <= 1,
            gdsc_on <= 1,
            core_on <= 1,
            utmi_on <= 1,
            domain == known | (gdsc_on << 1u32) | (core_on << 2u32) | (utmi_on << 3u32),
    ;
    domain
}

/// The registers a SuperSpeed snapshot is captured from.
#[derive(Clone, Copy, PartialEq, Eq, Debug)]
pub struct SsCapture {
    pub dsts: u32,
    pub dctl: u32,
    pub pipe: u32,
    pub gctl: u32,
    pub qscratch: u32,
    pub qscratch_general: u32,
    pub qmp: u32,
    pub qmp_status2: u32,
    pub qmp_power: u32,
    pub qmp_aux_branch: u32,
    pub qmp_pipe_branch: u32,
    pub qmp_com_aux_branch: u32,
    pub snpsid: u32,
    pub gdsc: u32,
    pub ltssm_register: u32,
    pub core_branch: u32,
    pub utmi_branch: u32,
}

/// Capture a snapshot; the Run/Stop records of `previous` carry over.
pub fn capture_ss_snapshot(c: &SsCapture, previous: &SsSnapshot) -> (s: SsSnapshot)
    ensures
        s == (SsSnapshot {
            valid: true,
            dsts: c.dsts,
            dctl: c.dctl,
            pipe: c.pipe,
            gctl: c.gctl,
            qscratch: c.qscratch,
            qscratch_general: c.qscratch_general,
            qmp: c.qmp,
            ltssm: (c.ltssm_register >> 22u32) & 0xf,
            domain: spec_domain(c.snpsid, c.gdsc, c.core_branch, c.utmi_branch),
            qmp_status2: c.qmp_status2,
            qmp_power: c.qmp_power,
            qmp_aux_branch: c.qmp_aux_branch,
            qmp_pipe_branch: c.qmp_pipe_branch,
            qmp_com_aux_branch: c.qmp_com_aux_branch,
            ..*previous
        }),
        s.domain <= 15,
{
    SsSnapshot {
        valid: true,
        dsts: c.dsts,
        dctl: c.dctl,
        pipe: c.pipe,
        gctl: c.gctl,
        qscratch: c.qscratch,
        qscratch_general: c.qscratch_general,
        qmp: c.qmp,
        ltssm: ltssm_state(c.ltssm_register),
        domain: ss_domain(c.snpsid, c.gdsc, c.core_branch, c.utmi_branch),
        qmp_status2: c.qmp_status2,
        qmp_power: c.qmp_power,
        qmp_aux_branch: c.qmp_aux_branch,
        qmp_pipe_branch: c.qmp_pipe_branch,
        qmp_com_aux_branch: c.qmp_com_aux_branch,
        runstop_pre_dctl: previous.runstop_pre_dctl,
        runstop_post_dctl: previous.runstop_post_dctl,
        runstop_post_dsts: previous.runstop_post_dsts,
    }
}

/// The post-Run/Stop event-DMA readout: 9 without a record, else the
/// record's three low outcome bits plus one.
pub fn post_event_dma_readout_code(h: &TraceHarvest) -> (code: u32)
    ensures
        code == if h.post == NO_RECORD {
            9
        } else {
            h.post % 8 + 1
        },
{
    if h.post == NO_RECORD {
        9
    } else {
        h.post % 8 + 1
    }
}

/// The attach-delay code of the core's power state: the GDSC status bits
/// (2:0) at bits 5:3, a known core at bit 2, a halted core at bit 1, and a
/// link state other than U0 at bit 0.
pub fn core_attach_delay_code(gdscr: u32, snpsid: u32, dsts: u32) -> (code: u32)
    ensures
        code == ((gdscr & 7) << 3u32) | (bit(spec_known_dwc_core_ip(snpsid)) << 2u32) | (bit(
            dsts & DSTS_DEVCTRLHLT != 0,
        ) << 1u32) | bit((dsts >> 18u32) & 0xf != 0),
{
    let known: u32 = if crate::usb::known_dwc_core_ip(snpsid) {
        1
    } else {
        0
    };
    let halt: u32 = if dsts & DSTS_DEVCTRLHLT != 0 {
        1
    } else {
        0
    };
    let link: u32 = if (dsts >> 18) & 0xf != 0 {
        1
    } else {
        0
    };
    ((gdscr & 7) << 3) | (known << 2) | (halt << 1) | link
}

/// The power-recovery code after re-voting the core's power: the regulator
/// votes at bit 0, the GDSC enable at bit 1, the GDSC's collapse bit clear
/// at bit 2, and a known core at bit 3.
pub fn core_power_recovery_code(votes: bool, gdsc_on: bool, gdscr: u32, snpsid: u32) -> (code: u32)
    ensures
        code == bit(votes) | (bit(gdsc_on) << 1u32) | (bit(gdscr & 1 == 0) << 2u32) | (bit(
            spec_known_dwc_core_ip(snpsid),
        ) << 3u32),
{
    let v: u32 = if votes {
        1
    } else {
        0
    };
    let g: u32 = if gdsc_on {
        1
    } else {
        0
    };
    let c: u32 = if gdscr & 1 == 0 {
        1
    } else {
        0
    };
    let k: u32 = if crate::usb::known_dwc_core_ip(snpsid) {
        1
    } else {
        0
    };
    v | (g << 1) | (c << 2) | (k << 3)
}

/// The attach delay, in milliseconds, after the core's power was
/// re-applied: 4 s when a known core answers, else 0.5 s, so the host sees
/// which by when the device attaches.
pub fn core_alive_attach_delay_secs(snpsid: u32) -> (ms: u64)
    ensures
        ms == if spec_known_dwc_core_ip(snpsid) {
            4000u64
        } else {
            500u64
        },
{
    if crate::usb::known_dwc_core_ip(snpsid) {
        4000
    } else {
        500
    }
}

/// The compact summary of a controller boundary record: events pending at
/// bit 0, a SETUP packet in the buffer (either word nonzero) at bit 1, the
/// SETUP TRB still owned by the controller at bit 2, and a latched device
/// error at bit 3.
pub fn dwc3_boundary_summary(event_count: u32, setup0: u32, setup1: u32, trb0_ctrl: u32, device_error: bool) -> (summary: u32)
    ensures
        summary == bit(event_count & GEVNTCOUNT_MASK != 0) | (bit((setup0 | setup1) != 0) << 1u32)
            | (bit(trb0_ctrl & TRB_HWO != 0) << 2u32) | (bit(device_error) << 3u32),
{
    let pending: u32 = if event_count & GEVNTCOUNT_MASK != 0 {
        1
    } else {
        0
    };
    let setup: u32 = if (setup0 | setup1) != 0 {
        1
    } else {
        0
    };
    let owned: u32 = if trb0_ctrl & TRB_HWO != 0 {
        1
    } else {
        0
    };
    let error: u32 = if device_error {
        1
    } else {
        0
    };
    pending | (setup << 1) | (owned << 2) | (error << 3)
}

/// Whether endpoint 1's data phase completed: its newest transfer-complete
/// status is a clean zero.
pub fn ep1_data_phase_complete(h: &TraceHarvest) -> (complete: bool)
    ensures
        complete == (h.ep1_xfer == 0),
{
    h.ep1_xfer == 0
}

} // verus!
