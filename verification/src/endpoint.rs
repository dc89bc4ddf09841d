//! Endpoint commands, endpoint configuration, transfer descriptors and the
//! bulk endpoints' request bookkeeping.

use vstd::prelude::*;
use crate::mmio::{
    DEPCFG_EP_NUMBER_SHIFT, DEPCFG_EP_TYPE_CONTROL, DEPCFG_MAX_PACKET_SHIFT,
    DEPCFG_XFER_COMPLETE_EN, DEPCFG_XFER_IN_PROGRESS_EN, DEPCFG_XFER_NOT_READY_EN,
    DEPCMD_ACTION_MODIFY, DEPCMD_CMDACT, DEPCMD_CMDIOC, DEPCMD_HIPRI_FORCERM, DEPCMD_ENDTRANSFER, DEPCMD_PARAM_SHIFT,
    DEPCMD_STATUS_MASK, DSTS_CONNECTSPD_MASK, DSTS_SUPERSPEED, DWC3_EP_COMMAND_TIMEOUT, GUSB2PHYCFG_ENBLSLPM,
    GUSB2PHYCFG_SUSPHY, TRB_HWO, TRB_IOC, TRB_ISP_IMI, TRB_LST,
};

verus! {

/// The register writes of one endpoint command: the three parameter
/// registers (PAR0 at +0x08, PAR1 at +0x04, PAR2 at +0x00, written in that
/// order) and then DEPCMD with the command-active bit.
#[derive(Clone, Copy, PartialEq, Eq, Debug)]
pub struct EpCommandWrites {
    pub par0: u32,
    pub par1: u32,
    pub par2: u32,
    pub depcmd: u32,
}

/// The writes that issue `command` with its parameters.
pub fn ep_command_writes(command: u32, param0: u32, param1: u32, param2: u32) -> (w:
    EpCommandWrites)
    ensures
        w == (EpCommandWrites {
            par0: param0,
            par1: param1,
            par2: param2,
            depcmd: command | DEPCMD_CMDACT,
        }),
{
    EpCommandWrites { par0: param0, par1: param1, par2: param2, depcmd: command | DEPCMD_CMDACT }
}

/// USB2 low-power bits that must be clear while an endpoint command runs:
/// for End Transfer, and for any command below SuperSpeed. Returns the bits
/// saved and the GUSB2PHYCFG value to write, when any was set.
pub open spec fn spec_command_usb2_guard(command: u32, dsts: u32, usb2: u32) -> Option<(u32, u32)> {
    let guarded = command & 0x0f == DEPCMD_ENDTRANSFER || dsts & DSTS_CONNECTSPD_MASK
        != DSTS_SUPERSPEED;
    let saved = usb2 & (GUSB2PHYCFG_SUSPHY | GUSB2PHYCFG_ENBLSLPM);
    if guarded && saved != 0 {
        Some((saved, usb2 & !(GUSB2PHYCFG_SUSPHY | GUSB2PHYCFG_ENBLSLPM)))
    } else {
        None
    }
}

/// Decide the USB2 guard for an endpoint command.
pub fn command_usb2_guard(command: u32, dsts: u32, usb2: u32) -> (r: Option<(u32, u32)>)
    ensures
        r == spec_command_usb2_guard(command, dsts, usb2),
{
    let guarded = command & 0x0f == DEPCMD_ENDTRANSFER || dsts & DSTS_CONNECTSPD_MASK
        != DSTS_SUPERSPEED;
    let saved = usb2 & (GUSB2PHYCFG_SUSPHY | GUSB2PHYCFG_ENBLSLPM);
    if guarded && saved != 0 {
        Some((saved, usb2 & !(GUSB2PHYCFG_SUSPHY | GUSB2PHYCFG_ENBLSLPM)))
    } else {
        None
    }
}

/// The outcome of a DEPCMD read while polling: `None` while the command is
/// still active; once it retired, the transfer resource index it returned
/// (bits 22:16) on success (status 0), or `None` on a failure status.
pub open spec fn spec_command_completion(depcmd: u32) -> Option<Option<u8>> {
    if depcmd & DEPCMD_CMDACT != 0 {
        None
    } else if depcmd & DEPCMD_STATUS_MASK == 0 {
        Some(Some(((depcmd >> DEPCMD_PARAM_SHIFT) & 0x7f) as u8))
    } else {
        Some(None)
    }
}

/// Read a polled DEPCMD value.
pub fn command_completion(depcmd: u32) -> (r: Option<Option<u8>>)
    ensures
        r == spec_command_completion(depcmd),
{
    if depcmd & DEPCMD_CMDACT != 0 {
        return None;
    }
    if depcmd & DEPCMD_STATUS_MASK == 0 {
        let index = (depcmd >> DEPCMD_PARAM_SHIFT) & 0x7f;
        assert(index < 128) by (bit_vector)
            requires
                index == (depcmd >> 16u32) & 0x7f,
        ;
        Some(Some(index as u8))
    } else {
        Some(None)
    }
}

/// An endpoint command in flight: the DEPCMD reads it may still make and the
/// USB2 low-power bits to set again once it retires or times out.
#[derive(Clone, Copy, PartialEq, Eq, Debug)]
pub struct EpCommandPoll {
    pub polls_left: u32,
    pub saved_usb2: u32,
}

/// How an endpoint command is issued: the GUSB2PHYCFG write that clears the
/// guarded low-power bits (if any was set), then the one set of register
/// writes that starts it, and the poll state.
#[derive(Clone, Copy, PartialEq, Eq, Debug)]
pub struct EpCommandIssue {
    pub usb2_write: Option<u32>,
    pub writes: EpCommandWrites,
    pub poll: EpCommandPoll,
}

/// Issue an endpoint command: the low-power guard decided from DSTS and
/// GUSB2PHYCFG, the parameter registers and one DEPCMD write with the
/// command-active bit, and a budget of `DWC3_EP_COMMAND_TIMEOUT` reads.
pub fn ep_command_issue(command: u32, param0: u32, param1: u32, param2: u32, dsts: u32, usb2: u32) -> (r:
    EpCommandIssue)
    ensures
        r.usb2_write == match spec_command_usb2_guard(command, dsts, usb2) {
            Some((_, value)) => Some(value),
            None => None::<u32>,
        },
        r.writes == (EpCommandWrites { par0: param0, par1: param1, par2: param2, depcmd: command | DEPCMD_CMDACT }),
        r.poll == (EpCommandPoll {
            polls_left: DWC3_EP_COMMAND_TIMEOUT,
            saved_usb2: match spec_command_usb2_guard(command, dsts, usb2) {
                Some((saved, _)) => saved,
                None => 0,
            },
        }),
{
    let guard = command_usb2_guard(command, dsts, usb2);
    let (usb2_write, saved) = match guard {
        Some((saved, value)) => (Some(value), saved),
        None => (None, 0),
    };
    EpCommandIssue {
        usb2_write,
        writes: ep_command_writes(command, param0, param1, param2),
        poll: EpCommandPoll { polls_left: DWC3_EP_COMMAND_TIMEOUT, saved_usb2: saved },
    }
}

/// What one DEPCMD read of a command in flight gives.
#[derive(Clone, Copy, PartialEq, Eq, Debug)]
pub enum EpCommandStep {
    /// Still active: read again.
    Wait,
    /// Over: the command's result (the resource index on success, `None`
    /// on a failure status or a timeout) and the low-power bits to set
    /// again in GUSB2PHYCFG (none when 0).
    Done { result: Option<u8>, timed_out: bool, restore_usb2: u32 },
}

/// Take one DEPCMD read. Each read spends one of the budget; the read that
/// spends the last one while the command is still active ends it as a
/// timeout, so a command makes at most `DWC3_EP_COMMAND_TIMEOUT` reads.
pub fn ep_command_poll(p: &mut EpCommandPoll, depcmd: u32) -> (r: EpCommandStep)
    requires
        old(p).polls_left > 0,
    ensures
        r == match spec_command_completion(depcmd) {
            Some(result) => EpCommandStep::Done { result, timed_out: false, restore_usb2: old(p).saved_usb2 },
            None => if old(p).polls_left == 1 {
                EpCommandStep::Done { result: None, timed_out: true, restore_usb2: old(p).saved_usb2 }
            } else {
                EpCommandStep::Wait
            },
        },
        *final(p) == (EpCommandPoll { polls_left: (old(p).polls_left - 1) as u32, ..*old(p) }),
        r == EpCommandStep::Wait ==> final(p).polls_left > 0,
{
    p.polls_left = p.polls_left - 1;
    match command_completion(depcmd) {
        Some(result) => EpCommandStep::Done { result, timed_out: false, restore_usb2: p.saved_usb2 },
        None => if p.polls_left == 0 {
            EpCommandStep::Done { result: None, timed_out: true, restore_usb2: p.saved_usb2 }
        } else {
            EpCommandStep::Wait
        },
    }
}

/// What one DEPCMD read does to a command in flight (as `ep_command_poll`).
pub open spec fn spec_poll(p: EpCommandPoll, depcmd: u32) -> (EpCommandPoll, EpCommandStep) {
    (
        EpCommandPoll { polls_left: (p.polls_left - 1) as u32, ..p },
        match spec_command_completion(depcmd) {
            Some(result) => EpCommandStep::Done { result, timed_out: false, restore_usb2: p.saved_usb2 },
            None => if p.polls_left == 1 {
                EpCommandStep::Done { result: None, timed_out: true, restore_usb2: p.saved_usb2 }
            } else {
                EpCommandStep::Wait
            },
        },
    )
}

/// Whether a command in flight is over within the DEPCMD reads `reads`.
pub open spec fn done_within(p: EpCommandPoll, reads: Seq<u32>) -> bool
    decreases reads.len(),
{
    if reads.len() == 0 {
        false
    } else {
        let (q, step) = spec_poll(p, reads[0]);
        match step {
            EpCommandStep::Done { .. } => true,
            EpCommandStep::Wait => done_within(q, reads.drop_first()),
        }
    }
}

/// An endpoint command never needs more than its read budget: whatever the
/// DEPCMD reads show, a command with `n` reads left is over within `n`
/// reads (so within `DWC3_EP_COMMAND_TIMEOUT` of its issue).
pub proof fn lemma_command_poll_bounded(p: EpCommandPoll, reads: Seq<u32>)
    requires
        p.polls_left > 0,
        reads.len() == p.polls_left,
    ensures
        done_within(p, reads),
    decreases reads.len(),
{
    let (q, step) = spec_poll(p, reads[0]);
    if step == EpCommandStep::Wait {
        lemma_command_poll_bounded(q, reads.drop_first());
    }
}

/// GUSB2PHYCFG after a command: the saved low-power bits set again.
pub fn usb2_after_command(current: u32, restore_usb2: u32) -> (value: u32)
    ensures
        value == current | restore_usb2,
{
    current | restore_usb2
}

/// SETEPCONFIG parameters of an endpoint: the action (MODIFY or
/// INITIALIZE), type and maximum packet in PAR0; in PAR1 the events (XferComplete for
/// control endpoints, XferInProgress for the others, XferNotReady on the
/// control pair), the interrupter and the physical endpoint number.
pub open spec fn spec_endpoint_config(
    endpoint: u32,
    max_packet: u32,
    endpoint_type: u32,
    modify: bool,
    interrupter: u32,
) -> (u32, u32, u32) {
    let action = if modify {
        DEPCMD_ACTION_MODIFY
    } else {
        0
    };
    let param0 = action | endpoint_type | (max_packet << DEPCFG_MAX_PACKET_SHIFT);
    let events = if endpoint_type == DEPCFG_EP_TYPE_CONTROL {
        DEPCFG_XFER_COMPLETE_EN
    } else {
        DEPCFG_XFER_IN_PROGRESS_EN
    };
    let nrdy = if endpoint <= 1 {
        DEPCFG_XFER_NOT_READY_EN
    } else {
        0
    };
    let param1 = events | nrdy | (interrupter & 0x1f) | (endpoint << DEPCFG_EP_NUMBER_SHIFT);
    (param0, param1, 0)
}

/// The SETEPCONFIG parameters of an endpoint.
pub fn endpoint_config(
    endpoint: u32,
    max_packet: u32,
    endpoint_type: u32,
    modify: bool,
    interrupter: u32,
) -> (r: (u32, u32, u32))
    ensures
        r == spec_endpoint_config(endpoint, max_packet, endpoint_type, modify, interrupter),
{
    let action = if modify {
        DEPCMD_ACTION_MODIFY
    } else {
        0
    };
    let param0 = action | endpoint_type | (max_packet << DEPCFG_MAX_PACKET_SHIFT);
    let mut param1 = if endpoint_type == DEPCFG_EP_TYPE_CONTROL {
        DEPCFG_XFER_COMPLETE_EN
    } else {
        DEPCFG_XFER_IN_PROGRESS_EN
    };
    let nrdy = if endpoint <= 1 {
        DEPCFG_XFER_NOT_READY_EN
    } else {
        0
    };
    param1 = param1 | nrdy;
    param1 = param1 | (interrupter & 0x1f);
    param1 = param1 | (endpoint << DEPCFG_EP_NUMBER_SHIFT);
    (param0, param1, 0)
}

/// Whether configuring an endpoint also allocates its transfer resource
/// (a fresh configuration does; a MODIFY does not).
pub fn config_allocates_resource(modify: bool) -> (allocate: bool)
    ensures
        allocate == !modify,
{
    !modify
}

/// STARTTRANSFER parameters: PAR0 the high and PAR1 the low half of the
/// TRB's bus address.
pub fn start_transfer_params(address: u64) -> (r: (u32, u32))
    ensures
        r == ((address >> 32u64) as u32, address as u32),
{
    ((address >> 32) as u32, address as u32)
}

/// Where a STARTTRANSFER's resource index is kept: EP0 OUT/IN, or bulk
/// OUT/IN.
#[derive(Clone, Copy, PartialEq, Eq, Debug)]
pub enum ResourceSlot {
    Control { index: usize },
    Data { index: usize },
    Untracked,
}

/// The resource slot of a physical endpoint.
pub fn resource_slot(endpoint: usize) -> (slot: ResourceSlot)
    ensures
        slot == if endpoint < 2 {
            ResourceSlot::Control { index: endpoint }
        } else if endpoint < 4 {
            ResourceSlot::Data { index: (endpoint - 2) as usize }
        } else {
            ResourceSlot::Untracked
        },
{
    if endpoint < 2 {
        ResourceSlot::Control { index: endpoint }
    } else if endpoint < 4 {
        ResourceSlot::Data { index: endpoint - 2 }
    } else {
        ResourceSlot::Untracked
    }
}

/// The counter value ending a retry window of `window_ms` milliseconds,
/// saturating.
pub open spec fn spec_retry_deadline(counter: u64, frequency: u64, window_ms: u64) -> u64 {
    let span = if frequency * window_ms > u64::MAX {
        u64::MAX as int
    } else {
        frequency * window_ms
    };
    let ticks = span / 1000;
    if counter + ticks > u64::MAX {
        u64::MAX
    } else {
        (counter + ticks) as u64
    }
}

/// The end of a Start Transfer retry window.
pub fn retry_deadline(counter: u64, frequency: u64, window_ms: u64) -> (deadline: u64)
    ensures
        deadline == spec_retry_deadline(counter, frequency, window_ms),
{
    let span = match frequency.checked_mul(window_ms) {
        Some(s) => s,
        None => u64::MAX,
    };
    let ticks = span / 1000;
    match counter.checked_add(ticks) {
        Some(d) => d,
        None => u64::MAX,
    }
}

/// A transfer request block.
#[derive(Clone, Copy, PartialEq, Eq, Debug)]
pub struct Trb {
    pub bpl: u32,
    pub bph: u32,
    pub size: u32,
    pub ctrl: u32,
}

/// A TRB for one buffer: its bus address split in two, its length, and the
/// TRB kind owned by the hardware as the last, interrupting TRB of its
/// transfer (a short packet also interrupts).
pub open spec fn spec_trb(address: u64, length: usize, kind: u32) -> Trb {
    Trb {
        bpl: address as u32,
        bph: (address >> 32u64) as u32,
        size: length as u32,
        ctrl: kind | TRB_HWO | TRB_LST | TRB_IOC | TRB_ISP_IMI,
    }
}

/// Fill a TRB.
pub fn prepare_trb(address: u64, length: usize, kind: u32) -> (t: Trb)
    ensures
        t == spec_trb(address, length, kind),
{
    Trb {
        bpl: address as u32,
        bph: (address >> 32) as u32,
        size: length as u32,
        ctrl: kind | TRB_HWO | TRB_LST | TRB_IOC | TRB_ISP_IMI,
    }
}

/// Whether the hardware still owns a TRB.
pub fn trb_hardware_owned(ctrl: u32) -> (owned: bool)
    ensures
        owned == (ctrl & TRB_HWO != 0),
{
    ctrl & TRB_HWO != 0
}

/// The request slot held by each bulk endpoint (OUT = physical 2,
/// IN = physical 3).
#[derive(Clone, Copy, PartialEq, Eq, Debug)]
pub struct BulkSlots {
    pub out_slot: Option<usize>,
    pub in_slot: Option<usize>,
}

/// Why a bulk transfer was not queued.
#[derive(Clone, Copy, PartialEq, Eq, Debug)]
pub enum BulkRefusal {
    /// The data endpoints are not configured.
    NotReady,
    /// Not a bulk endpoint, or nothing to transfer.
    BadRequest,
    /// A request is already outstanding on the endpoint.
    Busy,
}

/// The endpoint address of a bulk endpoint: 0x83 for IN, 0x02 for OUT.
pub open spec fn bulk_address(endpoint: usize) -> u8 {
    if endpoint == 3 {
        0x83
    } else {
        0x02
    }
}

/// The slot of a bulk endpoint (OUT or IN).
pub open spec fn bulk_slot(slots: BulkSlots, endpoint: usize) -> Option<usize> {
    if endpoint == 2 {
        slots.out_slot
    } else {
        slots.in_slot
    }
}

/// Whether a bulk transfer may be queued: the endpoint address to request
/// on, or why not.
pub open spec fn spec_bulk_admission(ready: bool, endpoint: usize, length: usize, slots: BulkSlots) -> Result<u8, BulkRefusal> {
    if !ready {
        Err(BulkRefusal::NotReady)
    } else if (endpoint != 2 && endpoint != 3) || length == 0 {
        Err(BulkRefusal::BadRequest)
    } else if bulk_slot(slots, endpoint) is Some {
        Err(BulkRefusal::Busy)
    } else {
        Ok(bulk_address(endpoint))
    }
}

/// Check whether a bulk transfer may be queued.
pub fn bulk_admission(ready: bool, endpoint: usize, length: usize, slots: &BulkSlots) -> (r: Result<u8, BulkRefusal>)
    ensures
        r == spec_bulk_admission(ready, endpoint, length, *slots),
{
    if !ready {
        return Err(BulkRefusal::NotReady);
    }
    if (endpoint != 2 && endpoint != 3) || length == 0 {
        return Err(BulkRefusal::BadRequest);
    }
    let slot = if endpoint == 2 {
        slots.out_slot
    } else {
        slots.in_slot
    };
    if slot.is_some() {
        return Err(BulkRefusal::Busy);
    }
    Ok(if endpoint == 3 {
        0x83
    } else {
        0x02
    })
}

/// Record the request slot of a started bulk transfer.
pub fn bulk_started(slots: &mut BulkSlots, endpoint: usize, slot: usize)
    requires
        endpoint == 2 || endpoint == 3,
    ensures
        *final(slots) == if endpoint == 2 {
            BulkSlots { out_slot: Some(slot), ..*old(slots) }
        } else {
            BulkSlots { in_slot: Some(slot), ..*old(slots) }
        },
{
    if endpoint == 2 {
        slots.out_slot = Some(slot);
    } else {
        slots.in_slot = Some(slot);
    }
}

/// What a bulk completion reports.
#[derive(Clone, Copy, PartialEq, Eq, Debug)]
pub struct BulkCompletion {
    pub address: u8,
    pub slot: usize,
    /// Bytes moved: the request length less the TRB's residual count.
    pub actual: u32,
    pub error: bool,
    /// Post the next OUT request.
    pub requeue_out: bool,
}

/// The bytes a completed TRB moved.
pub open spec fn spec_actual(request_length: u32, trb_size: u32) -> u32 {
    let residual = trb_size & 0x00ff_ffff;
    if request_length >= residual {
        (request_length - residual) as u32
    } else {
        0
    }
}

/// A completed TRB moved the request length less its residual count (the
/// low 24 bits of the TRB size word), never less than nothing: with no
/// residual the whole request moved, and moved bytes plus residual make
/// up the request whenever the residual fits in it.
pub proof fn lemma_actual_bytes(request_length: u32, trb_size: u32)
    ensures
        spec_actual(request_length, trb_size) as int == if request_length as int >= (trb_size
            & 0x00ff_ffff) as int {
            request_length as int - (trb_size & 0x00ff_ffff) as int
        } else {
            0int
        },
        trb_size & 0x00ff_ffff == 0 ==> spec_actual(request_length, trb_size) == request_length,
        spec_actual(request_length, trb_size) <= request_length,
        request_length >= trb_size & 0x00ff_ffff ==> spec_actual(request_length, trb_size) + (trb_size
            & 0x00ff_ffff) == request_length,
{
}

/// Complete a bulk transfer on `endpoint` with event status `status`:
/// its slot is released; `None` (nothing to complete) for another endpoint
/// or when no request is outstanding. The OUT endpoint is reposted while the
/// gadget stays configured.
pub fn bulk_complete(
    slots: &mut BulkSlots,
    endpoint: usize,
    status: u32,
    request_length: u32,
    trb_size: u32,
    configured: bool,
    ready: bool,
) -> (r: Option<BulkCompletion>)
    ensures
        (endpoint != 2 && endpoint != 3) || bulk_slot(*old(slots), endpoint) is None ==> r is None
            && *final(slots) == *old(slots),
        (endpoint == 2 || endpoint == 3) && bulk_slot(*old(slots), endpoint) is Some ==> {
            &&& r == Some(
                BulkCompletion {
                    address: bulk_address(endpoint),
                    slot: bulk_slot(*old(slots), endpoint)->0,
                    actual: spec_actual(request_length, trb_size),
                    error: status != 0,
                    requeue_out: endpoint == 2 && configured && ready,
                },
            )
            &&& *final(slots) == if endpoint == 2 {
                BulkSlots { out_slot: None, ..*old(slots) }
            } else {
                BulkSlots { in_slot: None, ..*old(slots) }
            }
        },
{
    if endpoint != 2 && endpoint != 3 {
        return None;
    }
    let slot = if endpoint == 2 {
        slots.out_slot
    } else {
        slots.in_slot
    };
    let slot = match slot {
        Some(s) => s,
        None => return None,
    };
    let residual = trb_size & 0x00ff_ffff;
    let actual = if request_length >= residual {
        request_length - residual
    } else {
        0
    };
    if endpoint == 2 {
        slots.out_slot = None;
    } else {
        slots.in_slot = None;
    }
    Some(
        BulkCompletion {
            address: if endpoint == 3 {
                0x83
            } else {
                0x02
            },
            slot,
            actual,
            error: status != 0,
            requeue_out: endpoint == 2 && configured && ready,
        },
    )
}

/// A started bulk transfer is always completed exactly once: completing it
/// frees the endpoint for the next request, and a second completion finds
/// nothing to complete.
pub proof fn lemma_bulk_request_completes_once(slots: BulkSlots, endpoint: usize, slot: usize)
    requires
        endpoint == 2 || endpoint == 3,
        bulk_slot(slots, endpoint) is None,
    ensures
        ({
            let started = if endpoint == 2 {
                BulkSlots { out_slot: Some(slot), ..slots }
            } else {
                BulkSlots { in_slot: Some(slot), ..slots }
            };
            let done = if endpoint == 2 {
                BulkSlots { out_slot: None, ..started }
            } else {
                BulkSlots { in_slot: None, ..started }
            };
            &&& spec_bulk_admission(true, endpoint, 1, started) == Err::<u8, BulkRefusal>(BulkRefusal::Busy)
            &&& bulk_slot(started, endpoint) == Some(slot)
            &&& done == slots
            &&& spec_bulk_admission(true, endpoint, 1, done) == Ok::<u8, BulkRefusal>(bulk_address(endpoint))
        }),
{
}

/// The End Transfer command that revokes resource `resource` (at least 1)
/// with a completion event and forced removal.
pub fn end_transfer_command(resource: u8) -> (command: u32)
    ensures
        command == DEPCMD_ENDTRANSFER | DEPCMD_CMDIOC | DEPCMD_HIPRI_FORCERM | ((if resource == 0 {
            1u32
        } else {
            resource as u32
        }) << DEPCMD_PARAM_SHIFT),
{
    let r: u32 = if resource == 0 {
        1
    } else {
        resource as u32
    };
    DEPCMD_ENDTRANSFER | DEPCMD_CMDIOC | DEPCMD_HIPRI_FORCERM | (r << DEPCMD_PARAM_SHIFT)
}

} // verus!
