//! Host-visible signal probes: latches of EP0 and link observations that
//! only ever get set, and the codes and early-drop conditions read from
//! them.

use vstd::prelude::*;
use vstd::string::StringSliceAdditionalSpecFns;
use crate::bytes::{ascii, bytes_equal, literal};
use crate::ep0::{fresh_setup, spec_fresh_setup};
use crate::mmio::{DCTL_RUN_STOP, DSTS_DEVCTRLHLT, TRB_HWO};

verus! {

/// What the probe has observed so far.
#[derive(Clone, Copy, PartialEq, Eq, Debug)]
pub struct SignalLatches {
    /// An event-ring poll consumed a record.
    pub event_delivered: bool,
    /// The controller retired the armed SETUP TRB (HWO cleared).
    pub setup_trb_retired: bool,
    /// A SETUP packet reached the setup buffer.
    pub setup_packet_received: bool,
    /// The first SOF frame number was recorded.
    pub sof_baselined: bool,
    pub last_soffn: u16,
    /// SOF frame numbers changed: the host is sending packets.
    pub sof_seen: bool,
    pub lnkst_u0: bool,
    pub lnkst_rxdet: bool,
    pub lnkst_polling: bool,
    pub lnkst_reset: bool,
    /// The core halted or Run/Stop read back cleared.
    pub core_halted: bool,
    /// The device-event stream reported a device error.
    pub device_error: bool,
    /// A poll saw the link in U0 with the core running.
    pub lnk_ever_on: bool,
    /// A poll saw a mid-transaction link state.
    pub lnk_mid_seen: bool,
}

impl SignalLatches {
    /// Nothing observed.
    pub open spec fn spec_new() -> SignalLatches {
        SignalLatches {
            event_delivered: false,
            setup_trb_retired: false,
            setup_packet_received: false,
            sof_baselined: false,
            last_soffn: 0,
            sof_seen: false,
            lnkst_u0: false,
            lnkst_rxdet: false,
            lnkst_polling: false,
            lnkst_reset: false,
            core_halted: false,
            device_error: false,
            lnk_ever_on: false,
            lnk_mid_seen: false,
        }
    }

    /// Nothing observed.
    pub fn new() -> (l: SignalLatches)
        ensures
            l == SignalLatches::spec_new(),
    {
        SignalLatches {
            event_delivered: false,
            setup_trb_retired: false,
            setup_packet_received: false,
            sof_baselined: false,
            last_soffn: 0,
            sof_seen: false,
            lnkst_u0: false,
            lnkst_rxdet: false,
            lnkst_polling: false,
            lnkst_reset: false,
            core_halted: false,
            device_error: false,
            lnk_ever_on: false,
            lnk_mid_seen: false,
        }
    }
}

/// The SOF frame number of DSTS (bits 16:3).
pub open spec fn soffn(dsts: u32) -> u16 {
    ((dsts & 0x1_fff8u32) >> 3u32) as u16
}

/// The link state of DSTS (bits 21:18).
pub open spec fn link_state(dsts: u32) -> u32 {
    (dsts >> 18u32) & 0xf
}

/// The EP0 observations of one sample: the SETUP TRB's control word and
/// the setup buffer.
pub open spec fn spec_sample_ep0(l: SignalLatches, trb_ctrl: u32, setup: Seq<u8>) -> SignalLatches {
    SignalLatches {
        setup_trb_retired: l.setup_trb_retired || trb_ctrl & TRB_HWO == 0,
        setup_packet_received: l.setup_packet_received || spec_fresh_setup(setup),
        ..l
    }
}

/// The SOF observation of one sample: the first frame number is the
/// baseline; a different later one shows frames arriving.
pub open spec fn spec_sample_sof(l: SignalLatches, sof_dsts: u32) -> SignalLatches {
    let n = soffn(sof_dsts);
    SignalLatches {
        sof_baselined: true,
        last_soffn: n,
        sof_seen: l.sof_seen || (l.sof_baselined && n != l.last_soffn),
        ..l
    }
}

/// The link observations of one sample: DSTS's link state, and whether the
/// core is halted or Run/Stop reads back cleared.
pub open spec fn spec_sample_link(l: SignalLatches, dsts: u32, dctl: u32) -> SignalLatches {
    let state = link_state(dsts);
    SignalLatches {
        lnkst_u0: l.lnkst_u0 || state == 0,
        lnkst_rxdet: l.lnkst_rxdet || state == 5,
        lnkst_polling: l.lnkst_polling || state == 7,
        lnkst_reset: l.lnkst_reset || state == 13,
        core_halted: l.core_halted || dsts & DSTS_DEVCTRLHLT != 0 || dctl & DCTL_RUN_STOP == 0,
        ..l
    }
}

/// The latches after one sample: the SETUP TRB's control word, the setup
/// buffer, DSTS read for the SOF number, DSTS read for the link and DCTL.
pub open spec fn spec_update(
    l: SignalLatches,
    trb_ctrl: u32,
    setup: Seq<u8>,
    sof_dsts: u32,
    dsts: u32,
    dctl: u32,
) -> SignalLatches {
    spec_sample_link(spec_sample_sof(spec_sample_ep0(l, trb_ctrl, setup), sof_dsts), dsts, dctl)
}

fn sample_ep0(l: &mut SignalLatches, trb_ctrl: u32, setup: &[u8])
    ensures
        *final(l) == spec_sample_ep0(*old(l), trb_ctrl, setup@),
{
    if trb_ctrl & TRB_HWO == 0 {
        l.setup_trb_retired = true;
    }
    if fresh_setup(setup) {
        l.setup_packet_received = true;
    }
}

fn sample_sof(l: &mut SignalLatches, sof_dsts: u32)
    ensures
        *final(l) == spec_sample_sof(*old(l), sof_dsts),
{
    let n = ((sof_dsts & 0x1_fff8) >> 3) as u16;
    if !l.sof_baselined {
        l.last_soffn = n;
        l.sof_baselined = true;
    } else if n != l.last_soffn {
        l.last_soffn = n;
        l.sof_seen = true;
    }
}

fn sample_link(l: &mut SignalLatches, dsts: u32, dctl: u32)
    ensures
        *final(l) == spec_sample_link(*old(l), dsts, dctl),
{
    let state = (dsts >> 18) & 0xf;
    if state == 0 {
        l.lnkst_u0 = true;
    } else if state == 5 {
        l.lnkst_rxdet = true;
    } else if state == 7 {
        l.lnkst_polling = true;
    } else if state == 13 {
        l.lnkst_reset = true;
    }
    if dsts & DSTS_DEVCTRLHLT != 0 || dctl & DCTL_RUN_STOP == 0 {
        l.core_halted = true;
    }
}

/// Take one sample into the latches.
pub fn update_signal_latches(
    l: &mut SignalLatches,
    trb_ctrl: u32,
    setup: &[u8],
    sof_dsts: u32,
    dsts: u32,
    dctl: u32,
)
    ensures
        *final(l) == spec_update(*old(l), trb_ctrl, setup@, sof_dsts, dsts, dctl),
{
    sample_ep0(l, trb_ctrl, setup);
    sample_sof(l, sof_dsts);
    sample_link(l, dsts, dctl);
}

/// The EP0 signal ladder: 1 event delivered, 2 SETUP TRB retired, 3 SETUP
/// received, 5 SOF frames seen, 0 none.
pub open spec fn spec_ep0_signal_code(l: SignalLatches) -> u32 {
    if l.event_delivered {
        1
    } else if l.setup_trb_retired {
        2
    } else if l.setup_packet_received {
        3
    } else if l.sof_seen {
        5
    } else {
        0
    }
}

/// The EP0 signal code of the latches.
pub fn ep0_signal_code(l: &SignalLatches) -> (code: u32)
    ensures
        code == spec_ep0_signal_code(*l),
{
    if l.event_delivered {
        1
    } else if l.setup_trb_retired {
        2
    } else if l.setup_packet_received {
        3
    } else if l.sof_seen {
        5
    } else {
        0
    }
}

/// The link signal ladder: 1 link on, 2 core halted, 3 bus reset, 4
/// polling, 5 RX detect only, 0 none.
pub open spec fn spec_link_signal_code(l: SignalLatches) -> u32 {
    if l.lnkst_u0 {
        1
    } else if l.core_halted {
        2
    } else if l.lnkst_reset {
        3
    } else if l.lnkst_polling {
        4
    } else if l.lnkst_rxdet {
        5
    } else {
        0
    }
}

/// The link signal code of the latches.
pub fn ep0_link_signal_code(l: &SignalLatches) -> (code: u32)
    ensures
        code == spec_link_signal_code(*l),
{
    if l.lnkst_u0 {
        1
    } else if l.core_halted {
        2
    } else if l.lnkst_reset {
        3
    } else if l.lnkst_polling {
        4
    } else if l.lnkst_rxdet {
        5
    } else {
        0
    }
}

/// The raw link nibble: 16 when the core is halted, 17 when Run/Stop reads
/// back cleared, else DSTS's link state.
pub fn ep0_raw_link_nibble(dsts: u32, dctl: u32) -> (nibble: u32)
    ensures
        nibble == if dsts & DSTS_DEVCTRLHLT != 0 {
            16
        } else if dctl & DCTL_RUN_STOP == 0 {
            17
        } else {
            link_state(dsts)
        },
{
    if dsts & DSTS_DEVCTRLHLT != 0 {
        return 16;
    }
    if dctl & DCTL_RUN_STOP == 0 {
        return 17;
    }
    (dsts >> 18) & 0xf
}

/// Whether a link state is mid-transaction: recovery, hot reset, loopback,
/// reset or resume.
pub open spec fn mid_transaction(state: u32) -> bool {
    state == 8 || state == 9 || state == 11 || state == 14 || state == 15
}

/// Latch the link observations of one poll.
pub fn link_on_sample(l: &mut SignalLatches, dsts: u32)
    ensures
        *final(l) == (SignalLatches {
            lnk_ever_on: old(l).lnk_ever_on || (dsts & DSTS_DEVCTRLHLT == 0 && link_state(dsts) == 0),
            lnk_mid_seen: old(l).lnk_mid_seen || mid_transaction(link_state(dsts)),
            ..*old(l)
        }),
{
    let state = (dsts >> 18) & 0xf;
    if !l.lnk_ever_on && dsts & DSTS_DEVCTRLHLT == 0 && state == 0 {
        l.lnk_ever_on = true;
    }
    if !l.lnk_mid_seen {
        if state == 8 || state == 9 || state == 11 || state == 14 || state == 15 {
            l.lnk_mid_seen = true;
        }
    }
}

/// An event-ring poll consumed records.
pub fn note_event_delivered(l: &mut SignalLatches)
    ensures
        *final(l) == (SignalLatches { event_delivered: true, ..*old(l) }),
{
    l.event_delivered = true;
}

/// The device-event stream reported a device error.
pub fn note_device_error(l: &mut SignalLatches)
    ensures
        *final(l) == (SignalLatches { device_error: true, ..*old(l) }),
{
    l.device_error = true;
}

/// The early-drop condition a setting selects: 1, 2, 3, 5 or 9, else 0.
pub open spec fn spec_early_drop_condition(setting: Option<Seq<u8>>) -> u32 {
    match setting {
        Some(s) => if s == ascii("1"@) {
            1
        } else if s == ascii("2"@) {
            2
        } else if s == ascii("3"@) {
            3
        } else if s == ascii("5"@) {
            5
        } else if s == ascii("9"@) {
            9
        } else {
            0
        },
        None => 0,
    }
}

/// Read the early-drop setting.
pub fn early_drop_condition(setting: Option<&str>) -> (c: u32)
    ensures
        c == spec_early_drop_condition(
            match setting {
                Some(s) => Some(s.spec_bytes()),
                None => None,
            },
        ),
{
    proof {
        reveal_strlit("1");
        reveal_strlit("2");
        reveal_strlit("3");
        reveal_strlit("5");
        reveal_strlit("9");
    }
    match setting {
        Some(s) => {
            let b = s.as_bytes();
            if bytes_equal(b, literal("1")) {
                1
            } else if bytes_equal(b, literal("2")) {
                2
            } else if bytes_equal(b, literal("3")) {
                3
            } else if bytes_equal(b, literal("5")) {
                5
            } else if bytes_equal(b, literal("9")) {
                9
            } else {
                0
            }
        },
        None => 0,
    }
}

/// Whether the condition's own latch is set (9 is unconditional).
pub open spec fn spec_early_drop_met(condition: u32, l: SignalLatches) -> bool {
    if condition == 9 {
        true
    } else if condition == 1 {
        l.event_delivered
    } else if condition == 2 {
        l.setup_trb_retired
    } else if condition == 3 {
        l.setup_packet_received
    } else if condition == 5 {
        l.sof_seen
    } else {
        false
    }
}

/// Whether the early drop fires.
pub fn early_drop_met(condition: u32, l: &SignalLatches) -> (met: bool)
    ensures
        met == spec_early_drop_met(condition, *l),
{
    if condition == 9 {
        true
    } else if condition == 1 {
        l.event_delivered
    } else if condition == 2 {
        l.setup_trb_retired
    } else if condition == 3 {
        l.setup_packet_received
    } else if condition == 5 {
        l.sof_seen
    } else {
        false
    }
}

/// The trace marker of an early drop ("SIED" with the condition).
pub fn early_drop_marker(condition: u32) -> (marker: u32)
    requires
        condition <= 9,
    ensures
        marker == 0x5349_4544u32 | (condition << 8u32),
{
    0x5349_4544 | (condition << 8)
}

/// Whether every latch set in `a` is set in `b`.
pub open spec fn latches_within(a: SignalLatches, b: SignalLatches) -> bool {
    &&& a.event_delivered ==> b.event_delivered
    &&& a.setup_trb_retired ==> b.setup_trb_retired
    &&& a.setup_packet_received ==> b.setup_packet_received
    &&& a.sof_baselined ==> b.sof_baselined
    &&& a.sof_seen ==> b.sof_seen
    &&& a.lnkst_u0 ==> b.lnkst_u0
    &&& a.lnkst_rxdet ==> b.lnkst_rxdet
    &&& a.lnkst_polling ==> b.lnkst_polling
    &&& a.lnkst_reset ==> b.lnkst_reset
    &&& a.core_halted ==> b.core_halted
    &&& a.device_error ==> b.device_error
    &&& a.lnk_ever_on ==> b.lnk_ever_on
    &&& a.lnk_mid_seen ==> b.lnk_mid_seen
}

/// The latches only ever get set: a sample never clears one, so the signal
/// codes can only move up their ladders' observations.
pub proof fn lemma_latches_only_set(
    l: SignalLatches,
    trb_ctrl: u32,
    setup: Seq<u8>,
    sof_dsts: u32,
    dsts: u32,
    dctl: u32,
)
    ensures
        latches_within(l, spec_update(l, trb_ctrl, setup, sof_dsts, dsts, dctl)),
        spec_ep0_signal_code(l) != 0 ==> spec_ep0_signal_code(
            spec_update(l, trb_ctrl, setup, sof_dsts, dsts, dctl),
        ) != 0,
        spec_link_signal_code(l) != 0 ==> spec_link_signal_code(
            spec_update(l, trb_ctrl, setup, sof_dsts, dsts, dctl),
        ) != 0,
{
}

} // verus!
