//! DWC3 PHY and Qualcomm clock-source bring-up sequences.
//!
//! Every sequence is computed as a list of register operations on one MMIO
//! block (the USB2 PHY, the QMP combo PHY or the QSCRATCH glue); the caller
//! performs them in order.

use vstd::prelude::*;
use crate::mmio::{
    RegisterOp, UsbResources, HSPHY_CFG0, HSPHY_CFG0_CMN_CTRL_OVERRIDE_EN,
    HSPHY_COMMON0, HSPHY_COMMON0_FSEL_MASK, HSPHY_COMMON1, HSPHY_COMMON1_PLLBTUNE,
    HSPHY_COMMON1_VBUSVLDEXTSEL0, HSPHY_COMMON2, HSPHY_COMMON2_VREGBYPASS, HSPHY_CTRL1,
    HSPHY_CTRL1_VBUSVLDEXT0, HSPHY_CTRL2, HSPHY_CTRL2_SUSPEND_N, HSPHY_CTRL2_SUSPEND_N_SEL,
    HSPHY_REFCLK_CTRL, HSPHY_RTUNE_SEL, HSPHY_UTMI_CTRL0, HSPHY_UTMI_CTRL5, HSPHY_UTMI_POR,
    HSPHY_UTMI_SLEEPM, PIPE3_PHYSTATUS_SW, PIPE_UTMI_CLK_DIS, PIPE_UTMI_CLK_SEL,
    QMP_ALFPS_DTCT_EN, QMP_ARCVR_DTCT_EN, QMP_ARCVR_DTCT_EVENT_SEL, QMP_CLAMP_EN,
    QMP_LFPS_IRQ_CLEAR, QSCRATCH_GENERAL_CFG, DWC3_REVISION_250A, GFLADJ_REFCLK_240MHZDECR_PLS1,
    GFLADJ_REFCLK_240MHZ_DECR, GFLADJ_REFCLK_FLADJ_19_2MHZ, GFLADJ_REFCLK_FLADJ_MASK,
    GFLADJ_REFCLK_LPM_SEL, GUCTL_REFCLKPER_19_2MHZ, GUCTL_REFCLKPER_MASK,
};

verus! {

/// The QMP phase at which the build stops the PHY bring-up: the setting
/// must be exactly one of the digits 1..8.
pub open spec fn spec_phase_stop(setting: Option<Seq<u8>>) -> Option<u32> {
    match setting {
        Some(s) => if s.len() == 1 && 49 <= s[0] <= 56 {
            Some((s[0] - 48) as u32)
        } else {
            None
        },
        None => None,
    }
}

/// The view of a build setting.
pub open spec fn setting_view(setting: Option<&[u8]>) -> Option<Seq<u8>> {
    match setting {
        Some(s) => Some(s@),
        None => None,
    }
}

/// Whether the build asks for the QMP phase probe at all.
pub fn qmp_phase_probe_requested(setting: Option<&[u8]>) -> (requested: bool)
    ensures
        requested == (setting is Some),
{
    setting.is_some()
}

/// Whether the build stops the QMP bring-up at `phase`.
pub fn qmp_phase_probe_selected(setting: Option<&[u8]>, phase: u32) -> (selected: bool)
    ensures
        selected == (spec_phase_stop(setting_view(setting)) == Some(phase)),
{
    match setting {
        Some(s) => s.len() == 1 && s[0] >= 49 && s[0] <= 56 && (s[0] - 48) as u32 == phase,
        None => false,
    }
}

/// Pack the post-Run/Stop QMP readout: PCS_STATUS1 in bits 15:0,
/// PCS_START_CONTROL in 23:16 and COM_TYPEC_CTRL in 31:24.
pub fn qmp_post_runstop_snapshot(status: u32, start: u32, lane: u32) -> (packed: u32)
    ensures
        packed == (status & 0xffff) | ((start & 0xff) << 16u32) | ((lane & 0xff) << 24u32),
        packed & 0xffff == status & 0xffff,
        (packed >> 16u32) & 0xff == start & 0xff,
        packed >> 24u32 == lane & 0xff,
{
    let packed = (status & 0xffff) | ((start & 0xff) << 16) | ((lane & 0xff) << 24);
    assert(packed & 0xffff == status & 0xffff && (packed >> 16u32) & 0xff == start & 0xff && packed
        >> 24u32 == lane & 0xff) by (bit_vector)
        requires
            packed == (status & 0xffff) | ((start & 0xff) << 16u32) | ((lane & 0xff) << 24u32),
    ;
    packed
}

/// Pack the QMP power-control readout: COM power-up in bit 0, PCS power-up
/// in bit 1.
pub fn qmp_power_snapshot(com: u32, pcs: u32) -> (packed: u32)
    ensures
        packed == (com & 1) | ((pcs & 1) << 1u32),
        packed <= 3,
{
    let packed = (com & 1) | ((pcs & 1) << 1);
    assert(packed <= 3) by (bit_vector)
        requires
            packed == (com & 1) | ((pcs & 1) << 1u32),
    ;
    packed
}

/// The QMP Type-C lane: an explicit build choice of lane `a` (2) or `b`
/// (3), else lane B exactly when the cable is reversed.
pub open spec fn spec_qmp_lane(setting: Option<Seq<u8>>, reversed: bool) -> u32 {
    match setting {
        Some(s) => if s == seq![97u8] {
            2
        } else if s == seq![98u8] {
            3
        } else if reversed {
            3
        } else {
            2
        },
        None => if reversed {
            3
        } else {
            2
        },
    }
}

/// Select the QMP Type-C lane value.
pub fn qmp_lane(setting: Option<&[u8]>, reversed: bool) -> (lane: u32)
    ensures
        lane == spec_qmp_lane(setting_view(setting), reversed),
{
    if let Some(s) = setting {
        if s.len() == 1 && s[0] == 97 {
            assert(s@ =~= seq![97u8]);
            return 2;
        }
        if s.len() == 1 && s[0] == 98 {
            assert(s@ =~= seq![98u8]);
            return 3;
        }
        assert(s@ != seq![97u8] && s@ != seq![98u8]);
    }
    if reversed {
        3
    } else {
        2
    }
}

/// The QMP lane follows the cable: an explicit build choice of `a` is lane
/// A (2) and of `b` lane B (3) whatever the orientation; without one, the
/// lane is B exactly when the cable is reversed, so flipping the cable
/// flips the lane.
pub proof fn lemma_qmp_lane_follows_orientation(setting: Option<Seq<u8>>, reversed: bool)
    ensures
        spec_qmp_lane(setting, reversed) == 2 || spec_qmp_lane(setting, reversed) == 3,
        setting == Some(seq![97u8]) ==> spec_qmp_lane(setting, reversed) == 2,
        setting == Some(seq![98u8]) ==> spec_qmp_lane(setting, reversed) == 3,
        setting != Some(seq![97u8]) && setting != Some(seq![98u8]) ==> {
            &&& (spec_qmp_lane(setting, reversed) == 3) == reversed
            &&& spec_qmp_lane(setting, true) != spec_qmp_lane(setting, false)
        },
        spec_qmp_lane(None, reversed) == if reversed {
            3u32
        } else {
            2u32
        },
{
    assert(seq![98u8][0] != seq![97u8][0]);
}

/// A USB2 PHY read-modify-write followed by its posting readback.
pub open spec fn hsphy_update(offset: usize, mask: u32, value: u32) -> Seq<RegisterOp> {
    seq![RegisterOp::Modify { offset, mask, value }, RegisterOp::Read { offset }]
}

/// The writes of the override table, skipping the unused-slot sentinel.
pub open spec fn override_writes(overrides: Seq<(usize, u32)>) -> Seq<RegisterOp>
    decreases overrides.len(),
{
    if overrides.len() == 0 {
        Seq::empty()
    } else {
        let (offset, value) = overrides[0];
        (if offset == usize::MAX {
            Seq::empty()
        } else {
            seq![RegisterOp::Write { offset, value }]
        }) + override_writes(overrides.drop_first())
    }
}

/// The Synopsys femto USB2 PHY initialisation: common-control override, POR
/// assert, reference clock, VBUS-valid override, the device-tree tuning
/// writes, (RTUNE outside the source-exact sequence), regulator bypass,
/// suspend-N hold, SLEEPM, POR release (with a 150 us settle outside the
/// source-exact sequence), and release of the holds.
pub open spec fn spec_hsphy_init_plan(source_exact: bool, overrides: Seq<(usize, u32)>) -> Seq<
    RegisterOp,
> {
    hsphy_update(HSPHY_CFG0, HSPHY_CFG0_CMN_CTRL_OVERRIDE_EN, HSPHY_CFG0_CMN_CTRL_OVERRIDE_EN)
        + hsphy_update(HSPHY_UTMI_CTRL5, HSPHY_UTMI_POR, HSPHY_UTMI_POR) + hsphy_update(
        HSPHY_COMMON0,
        HSPHY_COMMON0_FSEL_MASK,
        0,
    ) + hsphy_update(HSPHY_COMMON1, HSPHY_COMMON1_PLLBTUNE, HSPHY_COMMON1_PLLBTUNE)
        + hsphy_update(HSPHY_REFCLK_CTRL, 0x3, 0x2) + hsphy_update(
        HSPHY_COMMON1,
        HSPHY_COMMON1_VBUSVLDEXTSEL0,
        HSPHY_COMMON1_VBUSVLDEXTSEL0,
    ) + hsphy_update(HSPHY_CTRL1, HSPHY_CTRL1_VBUSVLDEXT0, HSPHY_CTRL1_VBUSVLDEXT0)
        + override_writes(overrides) + (if source_exact {
        Seq::empty()
    } else {
        hsphy_update(HSPHY_RTUNE_SEL, 1, 1)
    }) + hsphy_update(HSPHY_COMMON2, HSPHY_COMMON2_VREGBYPASS, HSPHY_COMMON2_VREGBYPASS)
        + hsphy_update(
        HSPHY_CTRL2,
        HSPHY_CTRL2_SUSPEND_N_SEL | HSPHY_CTRL2_SUSPEND_N,
        HSPHY_CTRL2_SUSPEND_N_SEL | HSPHY_CTRL2_SUSPEND_N,
    ) + hsphy_update(HSPHY_UTMI_CTRL0, HSPHY_UTMI_SLEEPM, HSPHY_UTMI_SLEEPM) + hsphy_update(
        HSPHY_UTMI_CTRL5,
        HSPHY_UTMI_POR,
        0,
    ) + (if source_exact {
        Seq::empty()
    } else {
        seq![RegisterOp::DelayUs { us: 150 }]
    }) + hsphy_update(HSPHY_CTRL2, HSPHY_CTRL2_SUSPEND_N_SEL, 0) + hsphy_update(
        HSPHY_CFG0,
        HSPHY_CFG0_CMN_CTRL_OVERRIDE_EN,
        0,
    )
}

fn push_hsphy_update(ops: &mut Vec<RegisterOp>, offset: usize, mask: u32, value: u32)
    ensures
        final(ops)@ == old(ops)@ + hsphy_update(offset, mask, value),
{
    ops.push(RegisterOp::Modify { offset, mask, value });
    ops.push(RegisterOp::Read { offset });
    assert(final(ops)@ =~= old(ops)@ + hsphy_update(offset, mask, value));
}

fn push_override_writes(ops: &mut Vec<RegisterOp>, overrides: &[(usize, u32)])
    ensures
        final(ops)@ == old(ops)@ + override_writes(overrides@),
{
    let mut i: usize = 0;
    assert(overrides@.subrange(0, overrides@.len() as int) =~= overrides@);
    while i < overrides.len()
        invariant
            i <= overrides@.len(),
            ops@ + override_writes(overrides@.subrange(i as int, overrides@.len() as int)) == old(
                ops,
            )@ + override_writes(overrides@),
        decreases overrides.len() - i,
    {
        let ghost rest = overrides@.subrange(i as int, overrides@.len() as int);
        assert(rest.drop_first() =~= overrides@.subrange(i + 1, overrides@.len() as int));
        let (offset, value) = overrides[i];
        let ghost before = ops@;
        if offset != usize::MAX {
            ops.push(RegisterOp::Write { offset, value });
        }
        i += 1;
        assert(before + override_writes(rest) =~= ops@ + override_writes(
            overrides@.subrange(i as int, overrides@.len() as int),
        ));
    }
    assert(overrides@.subrange(i as int, overrides@.len() as int) =~= Seq::<(usize, u32)>::empty());
    assert(ops@ + Seq::<RegisterOp>::empty() =~= ops@);
}

/// Compute the USB2 PHY initialisation sequence.
pub fn hsphy_init_plan(source_exact: bool, overrides: &[(usize, u32)]) -> (ops: Vec<RegisterOp>)
    ensures
        ops@ == spec_hsphy_init_plan(source_exact, overrides@),
{
    let mut ops: Vec<RegisterOp> = Vec::new();
    push_hsphy_update(
        &mut ops,
        HSPHY_CFG0,
        HSPHY_CFG0_CMN_CTRL_OVERRIDE_EN,
        HSPHY_CFG0_CMN_CTRL_OVERRIDE_EN,
    );
    push_hsphy_update(&mut ops, HSPHY_UTMI_CTRL5, HSPHY_UTMI_POR, HSPHY_UTMI_POR);
    push_hsphy_update(&mut ops, HSPHY_COMMON0, HSPHY_COMMON0_FSEL_MASK, 0);
    push_hsphy_update(&mut ops, HSPHY_COMMON1, HSPHY_COMMON1_PLLBTUNE, HSPHY_COMMON1_PLLBTUNE);
    push_hsphy_update(&mut ops, HSPHY_REFCLK_CTRL, 0x3, 0x2);
    push_hsphy_update(
        &mut ops,
        HSPHY_COMMON1,
        HSPHY_COMMON1_VBUSVLDEXTSEL0,
        HSPHY_COMMON1_VBUSVLDEXTSEL0,
    );
    push_hsphy_update(&mut ops, HSPHY_CTRL1, HSPHY_CTRL1_VBUSVLDEXT0, HSPHY_CTRL1_VBUSVLDEXT0);
    push_override_writes(&mut ops, overrides);
    if !source_exact {
        push_hsphy_update(&mut ops, HSPHY_RTUNE_SEL, 1, 1);
    }
    push_hsphy_update(&mut ops, HSPHY_COMMON2, HSPHY_COMMON2_VREGBYPASS, HSPHY_COMMON2_VREGBYPASS);
    push_hsphy_update(
        &mut ops,
        HSPHY_CTRL2,
        HSPHY_CTRL2_SUSPEND_N_SEL | HSPHY_CTRL2_SUSPEND_N,
        HSPHY_CTRL2_SUSPEND_N_SEL | HSPHY_CTRL2_SUSPEND_N,
    );
    push_hsphy_update(&mut ops, HSPHY_UTMI_CTRL0, HSPHY_UTMI_SLEEPM, HSPHY_UTMI_SLEEPM);
    push_hsphy_update(&mut ops, HSPHY_UTMI_CTRL5, HSPHY_UTMI_POR, 0);
    if !source_exact {
        ops.push(RegisterOp::DelayUs { us: 150 });
    }
    push_hsphy_update(&mut ops, HSPHY_CTRL2, HSPHY_CTRL2_SUSPEND_N_SEL, 0);
    push_hsphy_update(&mut ops, HSPHY_CFG0, HSPHY_CFG0_CMN_CTRL_OVERRIDE_EN, 0);
    assert(ops@ =~= spec_hsphy_init_plan(source_exact, overrides@));
    ops
}

} // verus!

verus! {

/// The QMP register offsets the bring-up uses, after the board contract.
#[derive(Clone, Copy)]
pub struct QmpOffsets {
    pub com_power_down: usize,
    pub pcs_power_down: usize,
    pub reset_override: usize,
    pub typec: usize,
    pub phy_mode: usize,
    pub com_sw_reset: usize,
    pub pcs_sw_reset: usize,
    pub pcs_start: usize,
    pub pcs_status: usize,
}

/// The contract offset of a slot, or its fallback.
pub open spec fn contract_offset(r: &UsbResources, slot: int, fallback: usize) -> usize {
    if r.qmp_reg_offsets@[slot] == crate::mmio::QMP_OFFSET_DEFAULT {
        fallback
    } else {
        r.qmp_reg_offsets@[slot]
    }
}

/// Resolve the QMP bring-up offsets from the board contract.
pub fn qmp_offsets(r: &UsbResources) -> (o: QmpOffsets)
    requires
        r.qmp_reg_offsets@.len() == crate::mmio::QMP_CONTRACT_SLOTS,
    ensures
        o.com_power_down == contract_offset(r, 8, crate::mmio::QMP_COM_POWER_DOWN_CTRL),
        o.pcs_power_down == contract_offset(r, 3, crate::mmio::QMP_PCS_POWER_DOWN_CONTROL),
        o.reset_override == contract_offset(r, 10, crate::mmio::QMP_COM_RESET_OVRD_CTRL),
        o.typec == contract_offset(r, 12, crate::mmio::QMP_COM_TYPEC_CTRL),
        o.phy_mode == contract_offset(r, 11, crate::mmio::QMP_COM_PHY_MODE_CTRL),
        o.com_sw_reset == contract_offset(r, 9, crate::mmio::QMP_COM_SW_RESET),
        o.pcs_sw_reset == contract_offset(r, 4, crate::mmio::QMP_PCS_SW_RESET),
        o.pcs_start == contract_offset(r, 5, crate::mmio::QMP_PCS_START_CONTROL),
        o.pcs_status == contract_offset(r, 0, crate::mmio::QMP_PCS_STATUS1),
{
    QmpOffsets {
        com_power_down: crate::mmio::qmp_contract_offset(r, 8, crate::mmio::QMP_COM_POWER_DOWN_CTRL),
        pcs_power_down: crate::mmio::qmp_contract_offset(r, 3, crate::mmio::QMP_PCS_POWER_DOWN_CONTROL),
        reset_override: crate::mmio::qmp_contract_offset(r, 10, crate::mmio::QMP_COM_RESET_OVRD_CTRL),
        typec: crate::mmio::qmp_contract_offset(r, 12, crate::mmio::QMP_COM_TYPEC_CTRL),
        phy_mode: crate::mmio::qmp_contract_offset(r, 11, crate::mmio::QMP_COM_PHY_MODE_CTRL),
        com_sw_reset: crate::mmio::qmp_contract_offset(r, 9, crate::mmio::QMP_COM_SW_RESET),
        pcs_sw_reset: crate::mmio::qmp_contract_offset(r, 4, crate::mmio::QMP_PCS_SW_RESET),
        pcs_start: crate::mmio::qmp_contract_offset(r, 5, crate::mmio::QMP_PCS_START_CONTROL),
        pcs_status: crate::mmio::qmp_contract_offset(r, 0, crate::mmio::QMP_PCS_STATUS1),
    }
}

/// Power-up, Type-C lane and USB+DP mode selection, and the second
/// power-up before the table.
pub open spec fn qmp_mode_select_ops(o: QmpOffsets, lane: u32) -> Seq<RegisterOp> {
    seq![
        RegisterOp::Write { offset: o.com_power_down, value: 1 },
        RegisterOp::Write { offset: o.pcs_power_down, value: 1 },
        RegisterOp::Barrier,
        RegisterOp::Write { offset: o.reset_override, value: 0x0f },
        RegisterOp::Write { offset: o.typec, value: lane },
        RegisterOp::Read { offset: o.typec },
        RegisterOp::Write { offset: o.phy_mode, value: 0x03 },
        RegisterOp::Read { offset: o.phy_mode },
        RegisterOp::Write { offset: o.reset_override, value: 0 },
        RegisterOp::Barrier,
        RegisterOp::Write { offset: o.com_power_down, value: 1 },
        RegisterOp::Write { offset: o.pcs_power_down, value: 1 },
        RegisterOp::Barrier,
    ]
}

/// The initialisation table writes, each followed by its delay when non-zero.
pub open spec fn qmp_table_ops(table: Seq<(usize, u32)>, delays: Seq<u32>) -> Seq<RegisterOp>
    decreases table.len(),
{
    if table.len() == 0 || delays.len() == 0 {
        Seq::empty()
    } else {
        seq![RegisterOp::Write { offset: table[0].0, value: table[0].1 }] + (if delays[0] == 0 {
            Seq::empty()
        } else {
            seq![RegisterOp::DelayUs { us: delays[0] }]
        }) + qmp_table_ops(table.drop_first(), delays.drop_first())
    }
}

/// The operations of QMP bring-up phase `k` (1..=7); each phase boundary is
/// a point where the phase probe may stop.
pub open spec fn qmp_phase_ops(
    k: int,
    o: QmpOffsets,
    lane: u32,
    table: Seq<(usize, u32)>,
    delays: Seq<u32>,
) -> Seq<RegisterOp> {
    if k == 3 {
        qmp_mode_select_ops(o, lane)
    } else if k == 4 {
        qmp_table_ops(table, delays)
    } else if k == 5 {
        seq![
            RegisterOp::Write { offset: o.com_sw_reset, value: 0 },
            RegisterOp::Write { offset: o.pcs_sw_reset, value: 0 },
        ]
    } else if k == 6 {
        seq![RegisterOp::Write { offset: o.pcs_start, value: 0x03 }, RegisterOp::Barrier]
    } else if k == 7 {
        seq![RegisterOp::Read { offset: o.pcs_status }]
    } else {
        Seq::empty()
    }
}

/// The operations of phases 1..=k.
pub open spec fn qmp_ops_through(
    k: int,
    o: QmpOffsets,
    lane: u32,
    table: Seq<(usize, u32)>,
    delays: Seq<u32>,
) -> Seq<RegisterOp>
    decreases k,
{
    if k <= 0 {
        Seq::empty()
    } else {
        qmp_ops_through(k - 1, o, lane, table, delays) + qmp_phase_ops(k, o, lane, table, delays)
    }
}

/// The QMP bring-up to perform: the operations, the phase at which the
/// probe build stops (the caller then records it and reports success), and
/// otherwise the status register to poll until PHYSTATUS clears and whether
/// the probe stops right after that poll.
pub struct QmpInitPlan {
    pub ops: Vec<RegisterOp>,
    pub stopped_at: Option<u32>,
    pub poll_status_offset: usize,
    pub stop_after_poll: bool,
}

fn push_table_ops(ops: &mut Vec<RegisterOp>, table: &[(usize, u32)], delays: &[u32])
    requires
        table@.len() == delays@.len(),
    ensures
        final(ops)@ == old(ops)@ + qmp_table_ops(table@, delays@),
{
    let mut i: usize = 0;
    assert(table@.subrange(0, table@.len() as int) =~= table@);
    assert(delays@.subrange(0, delays@.len() as int) =~= delays@);
    while i < table.len()
        invariant
            table@.len() == delays@.len(),
            i <= table@.len(),
            ops@ + qmp_table_ops(
                table@.subrange(i as int, table@.len() as int),
                delays@.subrange(i as int, delays@.len() as int),
            ) == old(ops)@ + qmp_table_ops(table@, delays@),
        decreases table.len() - i,
    {
        let ghost t = table@.subrange(i as int, table@.len() as int);
        let ghost d = delays@.subrange(i as int, delays@.len() as int);
        assert(t.drop_first() =~= table@.subrange(i + 1, table@.len() as int));
        assert(d.drop_first() =~= delays@.subrange(i + 1, delays@.len() as int));
        let ghost before = ops@;
        let (offset, value) = table[i];
        ops.push(RegisterOp::Write { offset, value });
        if delays[i] != 0 {
            ops.push(RegisterOp::DelayUs { us: delays[i] });
        }
        i += 1;
        assert(before + qmp_table_ops(t, d) =~= ops@ + qmp_table_ops(
            table@.subrange(i as int, table@.len() as int),
            delays@.subrange(i as int, delays@.len() as int),
        ));
    }
    assert(qmp_table_ops(
        table@.subrange(i as int, table@.len() as int),
        delays@.subrange(i as int, delays@.len() as int),
    ) =~= Seq::<RegisterOp>::empty());
    assert(ops@ + Seq::<RegisterOp>::empty() =~= ops@);
}

/// Plan the QMP combo-PHY bring-up of `msm_ssphy_qmp_init()`.
pub fn qmp_init_plan(
    o: QmpOffsets,
    lane: u32,
    table: &[(usize, u32)],
    delays: &[u32],
    phase_stop: Option<&[u8]>,
) -> (plan: QmpInitPlan)
    requires
        table@.len() == delays@.len(),
    ensures
        match spec_phase_stop(setting_view(phase_stop)) {
            Some(p) if 1 <= p <= 7 => {
                &&& plan.stopped_at == Some(p)
                &&& plan.ops@ == qmp_ops_through(p as int, o, lane, table@, delays@)
            },
            _ => {
                &&& plan.stopped_at is None
                &&& plan.ops@ == qmp_ops_through(7, o, lane, table@, delays@)
                &&& plan.poll_status_offset == o.pcs_status
                &&& plan.stop_after_poll == (spec_phase_stop(setting_view(phase_stop)) == Some(
                    8u32,
                ))
            },
        },
{
    let mut ops: Vec<RegisterOp> = Vec::new();
    let mut phase: u32 = 1;
    while phase <= 7
        invariant
            1 <= phase <= 8,
            table@.len() == delays@.len(),
            ops@ == qmp_ops_through(phase - 1, o, lane, table@, delays@),
            forall|p: u32| 1 <= p < phase ==> spec_phase_stop(setting_view(phase_stop)) != Some(p),
        decreases 8 - phase,
    {
        let ghost before = ops@;
        if phase == 3 {
            ops.push(RegisterOp::Write { offset: o.com_power_down, value: 1 });
            ops.push(RegisterOp::Write { offset: o.pcs_power_down, value: 1 });
            ops.push(RegisterOp::Barrier);
            ops.push(RegisterOp::Write { offset: o.reset_override, value: 0x0f });
            ops.push(RegisterOp::Write { offset: o.typec, value: lane });
            ops.push(RegisterOp::Read { offset: o.typec });
            ops.push(RegisterOp::Write { offset: o.phy_mode, value: 0x03 });
            ops.push(RegisterOp::Read { offset: o.phy_mode });
            ops.push(RegisterOp::Write { offset: o.reset_override, value: 0 });
            ops.push(RegisterOp::Barrier);
            ops.push(RegisterOp::Write { offset: o.com_power_down, value: 1 });
            ops.push(RegisterOp::Write { offset: o.pcs_power_down, value: 1 });
            ops.push(RegisterOp::Barrier);
        } else if phase == 4 {
            push_table_ops(&mut ops, table, delays);
        } else if phase == 5 {
            ops.push(RegisterOp::Write { offset: o.com_sw_reset, value: 0 });
            ops.push(RegisterOp::Write { offset: o.pcs_sw_reset, value: 0 });
        } else if phase == 6 {
            ops.push(RegisterOp::Write { offset: o.pcs_start, value: 0x03 });
            ops.push(RegisterOp::Barrier);
        } else if phase == 7 {
            ops.push(RegisterOp::Read { offset: o.pcs_status });
        }
        assert(ops@ =~= before + qmp_phase_ops(phase as int, o, lane, table@, delays@));
        if qmp_phase_probe_selected(phase_stop, phase) {
            return QmpInitPlan {
                ops,
                stopped_at: Some(phase),
                poll_status_offset: o.pcs_status,
                stop_after_poll: false,
            };
        }
        phase += 1;
    }
    let stop_after_poll = qmp_phase_probe_selected(phase_stop, 8);
    proof {
        let s = spec_phase_stop(setting_view(phase_stop));
        if s is Some {
            assert(s->0 >= 1 && s->0 <= 8);
            if s->0 <= 7 {
                assert(s != Some(s->0));
            }
        }
    }
    QmpInitPlan { ops, stopped_at: None, poll_status_offset: o.pcs_status, stop_after_poll }
}

} // verus!

verus! {

/// Clear the LFPS receiver-detect interrupt: assert the clear, order it,
/// release the clear, and read back.
pub open spec fn lfps_clear_ops(clear: usize) -> Seq<RegisterOp> {
    seq![
        RegisterOp::Write { offset: clear, value: QMP_LFPS_IRQ_CLEAR },
        RegisterOp::Barrier,
        RegisterOp::Write { offset: clear, value: 0 },
        RegisterOp::Read { offset: clear },
    ]
}

/// The autonomous-mode detectors.
pub open spec fn autonomous_bits() -> u32 {
    QMP_ARCVR_DTCT_EN | QMP_ALFPS_DTCT_EN | QMP_ARCVR_DTCT_EVENT_SEL
}

/// Entering autonomous mode enables receiver and LFPS detection (event
/// select clear) and engages the active-high clamp control; leaving it
/// releases the clamp, disables both detectors and clears a pending
/// receiver-detect edge.
pub open spec fn spec_autonomous_mode_ops(enable: bool, autonomous: usize, clamp: usize, clear: usize) -> Seq<
    RegisterOp,
> {
    if enable {
        lfps_clear_ops(clear) + seq![
            RegisterOp::Modify {
                offset: autonomous,
                mask: autonomous_bits(),
                value: QMP_ARCVR_DTCT_EN | QMP_ALFPS_DTCT_EN,
            },
            RegisterOp::Modify { offset: clamp, mask: QMP_CLAMP_EN, value: 0 },
            RegisterOp::Read { offset: autonomous },
        ]
    } else {
        seq![
            RegisterOp::Modify { offset: clamp, mask: QMP_CLAMP_EN, value: QMP_CLAMP_EN },
            RegisterOp::Modify { offset: autonomous, mask: autonomous_bits(), value: 0 },
        ] + lfps_clear_ops(clear)
    }
}

/// Plan the QMP autonomous-mode switch.
pub fn autonomous_mode_ops(enable: bool, autonomous: usize, clamp: usize, clear: usize) -> (ops: Vec<
    RegisterOp,
>)
    ensures
        ops@ == spec_autonomous_mode_ops(enable, autonomous, clamp, clear),
{
    let mut ops: Vec<RegisterOp> = Vec::new();
    let bits = QMP_ARCVR_DTCT_EN | QMP_ALFPS_DTCT_EN | QMP_ARCVR_DTCT_EVENT_SEL;
    if enable {
        ops.push(RegisterOp::Write { offset: clear, value: QMP_LFPS_IRQ_CLEAR });
        ops.push(RegisterOp::Barrier);
        ops.push(RegisterOp::Write { offset: clear, value: 0 });
        ops.push(RegisterOp::Read { offset: clear });
        ops.push(
            RegisterOp::Modify {
                offset: autonomous,
                mask: bits,
                value: QMP_ARCVR_DTCT_EN | QMP_ALFPS_DTCT_EN,
            },
        );
        ops.push(RegisterOp::Modify { offset: clamp, mask: QMP_CLAMP_EN, value: 0 });
        ops.push(RegisterOp::Read { offset: autonomous });
    } else {
        ops.push(RegisterOp::Modify { offset: clamp, mask: QMP_CLAMP_EN, value: QMP_CLAMP_EN });
        ops.push(RegisterOp::Modify { offset: autonomous, mask: bits, value: 0 });
        ops.push(RegisterOp::Write { offset: clear, value: QMP_LFPS_IRQ_CLEAR });
        ops.push(RegisterOp::Barrier);
        ops.push(RegisterOp::Write { offset: clear, value: 0 });
        ops.push(RegisterOp::Read { offset: clear });
    }
    assert(ops@ =~= spec_autonomous_mode_ops(enable, autonomous, clamp, clear));
    ops
}

/// Plan the LFPS receiver-detect interrupt clear.
pub fn lfps_rxterm_clear_ops(clear: usize) -> (ops: Vec<RegisterOp>)
    ensures
        ops@ == lfps_clear_ops(clear),
{
    let mut ops: Vec<RegisterOp> = Vec::new();
    ops.push(RegisterOp::Write { offset: clear, value: QMP_LFPS_IRQ_CLEAR });
    ops.push(RegisterOp::Barrier);
    ops.push(RegisterOp::Write { offset: clear, value: 0 });
    ops.push(RegisterOp::Read { offset: clear });
    assert(ops@ =~= lfps_clear_ops(clear));
    ops
}

/// A QSCRATCH read-modify-write setting `mask`, with its posting readbacks.
pub open spec fn qscratch_set_ops(offset: usize, mask: u32) -> Seq<RegisterOp> {
    seq![
        RegisterOp::Modify { offset, mask, value: mask },
        RegisterOp::Read { offset },
        RegisterOp::Read { offset },
    ]
}

/// The Qualcomm UTMI-as-PIPE clock selection: disable the PIPE clock, select
/// UTMI with software PHY status, then re-enable the clock, waiting `gap_us`
/// between the transitions (100 us standalone, 3 us after a core reset).
pub open spec fn spec_utmi_pipe_clock_ops(gap_us: u32) -> Seq<RegisterOp> {
    qscratch_set_ops(QSCRATCH_GENERAL_CFG, PIPE_UTMI_CLK_DIS) + seq![
        RegisterOp::DelayUs { us: gap_us },
    ] + qscratch_set_ops(QSCRATCH_GENERAL_CFG, PIPE_UTMI_CLK_SEL | PIPE3_PHYSTATUS_SW) + seq![
        RegisterOp::DelayUs { us: gap_us },
        RegisterOp::Modify { offset: QSCRATCH_GENERAL_CFG, mask: PIPE_UTMI_CLK_DIS, value: 0 },
        RegisterOp::Read { offset: QSCRATCH_GENERAL_CFG },
    ]
}

/// Plan the UTMI-as-PIPE clock selection.
pub fn utmi_pipe_clock_ops(gap_us: u32) -> (ops: Vec<RegisterOp>)
    ensures
        ops@ == spec_utmi_pipe_clock_ops(gap_us),
{
    let mut ops: Vec<RegisterOp> = Vec::new();
    let off = QSCRATCH_GENERAL_CFG;
    ops.push(RegisterOp::Modify { offset: off, mask: PIPE_UTMI_CLK_DIS, value: PIPE_UTMI_CLK_DIS });
    ops.push(RegisterOp::Read { offset: off });
    ops.push(RegisterOp::Read { offset: off });
    ops.push(RegisterOp::DelayUs { us: gap_us });
    let sel = PIPE_UTMI_CLK_SEL | PIPE3_PHYSTATUS_SW;
    ops.push(RegisterOp::Modify { offset: off, mask: sel, value: sel });
    ops.push(RegisterOp::Read { offset: off });
    ops.push(RegisterOp::Read { offset: off });
    ops.push(RegisterOp::DelayUs { us: gap_us });
    ops.push(RegisterOp::Modify { offset: off, mask: PIPE_UTMI_CLK_DIS, value: 0 });
    ops.push(RegisterOp::Read { offset: off });
    assert(ops@ =~= spec_utmi_pipe_clock_ops(gap_us));
    ops
}

/// The controller reference-clock calibration for a 19.2 MHz reference:
/// GUCTL's reference period always, and GFLADJ's LPM/240 MHz decrement/frame
/// adjustment fields from revision 2.50a (`None` for GFLADJ before that).
pub fn ref_clock_values(snpsid: u32, guctl: u32, gfladj: u32) -> (r: (u32, Option<u32>))
    ensures
        r.0 == (guctl & !GUCTL_REFCLKPER_MASK) | GUCTL_REFCLKPER_19_2MHZ,
        r.1 == if snpsid >= DWC3_REVISION_250A {
            Some(
                (gfladj & !(GFLADJ_REFCLK_FLADJ_MASK | GFLADJ_REFCLK_LPM_SEL
                    | GFLADJ_REFCLK_240MHZ_DECR | GFLADJ_REFCLK_240MHZDECR_PLS1))
                    | GFLADJ_REFCLK_LPM_SEL | GFLADJ_REFCLK_240MHZ_DECR
                    | GFLADJ_REFCLK_240MHZDECR_PLS1 | GFLADJ_REFCLK_FLADJ_19_2MHZ,
            )
        } else {
            None::<u32>
        },
{
    let new_guctl = (guctl & !GUCTL_REFCLKPER_MASK) | GUCTL_REFCLKPER_19_2MHZ;
    let new_gfladj = if snpsid >= DWC3_REVISION_250A {
        Some(
            (gfladj & !(GFLADJ_REFCLK_FLADJ_MASK | GFLADJ_REFCLK_LPM_SEL | GFLADJ_REFCLK_240MHZ_DECR
                | GFLADJ_REFCLK_240MHZDECR_PLS1)) | GFLADJ_REFCLK_LPM_SEL
                | GFLADJ_REFCLK_240MHZ_DECR | GFLADJ_REFCLK_240MHZDECR_PLS1
                | GFLADJ_REFCLK_FLADJ_19_2MHZ,
        )
    } else {
        None
    };
    (new_guctl, new_gfladj)
}

} // verus!
