//! Reading outcomes back out of the retained trace ring.
//!
//! The ring survives a warm restart, so each handoff attempt can read what
//! the previous one recorded. A harvest scans the ring newest first and
//! folds every record into a `TraceHarvest`; the attach gates and the
//! composite diagnostic code are then plain functions of that summary.

use vstd::prelude::*;
use crate::mmio::{DEPCMD_DEPSTARTCFG, DEPCMD_SETTRANSFRESOURCE, DEPCMD_STARTTRANSFER, TRB_HWO};

verus! {

/// No record of that kind was found.
pub const NO_RECORD: u32 = 0xffff_ffff;

/// Marker of a data-phase arm outcome record ("DARM").
pub const DARM_MARKER: u32 = 0x4441_524d;

/// Marker of the post-Run/Stop event-DMA probe record ("POST").
pub const POST_MARKER: u32 = 0x504f_5354;

/// Marker of an armed-SETUP record ("ARME").
pub const ARMED_MARKER: u32 = 0x4152_4d45;

/// One retained trace record, as far as a harvest reads it.
#[derive(Clone, Copy, PartialEq, Eq, Debug)]
pub struct TraceEntry {
    pub sequence: u32,
    pub event: u32,
    pub request: u32,
    pub value: u32,
    pub index: u32,
    pub length: u32,
}

/// The trace ring's header words and the event codes of the records a
/// harvest looks at.
#[derive(Clone, Copy, PartialEq, Eq, Debug)]
pub struct TraceCodes {
    /// The magic word a ring of this build starts with.
    pub trace_magic: u32,
    /// The ring layout version of this build.
    pub trace_version: u32,
    pub setup_received: u32,
    pub device_connect: u32,
    pub descriptor_queued: u32,
    pub status_queued: u32,
    pub transfer_complete: u32,
    pub xfer_not_ready: u32,
    pub event_ring_ready: u32,
    pub setup_queued: u32,
    pub ep_command_done: u32,
    pub ep_command_timeout: u32,
}

/// What the harvests have found so far.
#[derive(Clone, Copy, PartialEq, Eq, Debug)]
pub struct TraceHarvest {
    /// Chronologically first STARTTRANSFER outcome (see `command_outcome`).
    pub outcome: u32,
    /// First SETTRANSFRESOURCE outcome.
    pub rsc: u32,
    /// First DEPSTARTCFG outcome.
    pub cfg: u32,
    /// Newest STARTTRANSFER outcome.
    pub last: u32,
    /// Newest STARTTRANSFER outcome on physical endpoint 1.
    pub ep1: u32,
    /// SETUP packets received.
    pub setup: u32,
    /// Descriptor-queued records.
    pub desc: u32,
    /// Status-queued records.
    pub statusq: u32,
    /// Armed-SETUP records.
    pub armed: u32,
    /// Lowest sequence number of an armed-SETUP record.
    pub arm_seq: u32,
    /// Lowest sequence number of a received SETUP.
    pub setup_seq: u32,
    /// Connect Done records.
    pub connect: u32,
    /// SET_ADDRESS requests received.
    pub addr: u32,
    /// 1 when a GET_DESCRIPTOR newer than every SET_ADDRESS was received.
    pub addr2: u32,
    /// Newest data-phase arm outcome: `0x1_0000 | queued`.
    pub darm: u32,
    /// Newest SETUP: `request << 16 | length`.
    pub last_setup: u32,
    /// Newest endpoint-1 transfer-complete status.
    pub ep1_xfer: u32,
    /// Endpoint-1 XferNotReady(CONTROL_DATA) records.
    pub ep1_nrdy: u32,
    /// Newest post-Run/Stop probe: `0x1_0000 | started | ended << 1 |
    /// delivered << 2`.
    pub post: u32,
}

/// `x + 1`, wrapping.
pub open spec fn wrap_inc(x: u32) -> u32 {
    if x == 0xffff_ffffu32 {
        0
    } else {
        (x + 1) as u32
    }
}

fn wrapping_inc(x: u32) -> (r: u32)
    ensures
        r == wrap_inc(x),
{
    if x == u32::MAX {
        0
    } else {
        x + 1
    }
}

impl TraceHarvest {
    /// The summary before any harvest: no record of any kind.
    pub open spec fn spec_initial() -> TraceHarvest {
        TraceHarvest {
            outcome: NO_RECORD,
            rsc: NO_RECORD,
            cfg: NO_RECORD,
            last: NO_RECORD,
            ep1: NO_RECORD,
            setup: 0,
            desc: 0,
            statusq: 0,
            armed: 0,
            arm_seq: NO_RECORD,
            setup_seq: NO_RECORD,
            connect: 0,
            addr: 0,
            addr2: 0,
            darm: NO_RECORD,
            last_setup: NO_RECORD,
            ep1_xfer: NO_RECORD,
            ep1_nrdy: 0,
            post: NO_RECORD,
        }
    }

    /// The summary before any harvest.
    pub fn initial() -> (h: TraceHarvest)
        ensures
            h == TraceHarvest::spec_initial(),
    {
        TraceHarvest {
            outcome: NO_RECORD,
            rsc: NO_RECORD,
            cfg: NO_RECORD,
            last: NO_RECORD,
            ep1: NO_RECORD,
            setup: 0,
            desc: 0,
            statusq: 0,
            armed: 0,
            arm_seq: NO_RECORD,
            setup_seq: NO_RECORD,
            connect: 0,
            addr: 0,
            addr2: 0,
            darm: NO_RECORD,
            last_setup: NO_RECORD,
            ep1_xfer: NO_RECORD,
            ep1_nrdy: 0,
            post: NO_RECORD,
        }
    }
}

/// A harvest restarts the per-scan counters and newest-record fields (the
/// newest STARTTRANSFER outcomes among them); the oldest command outcomes
/// carry over from earlier harvests.
pub open spec fn restart_scan(h: TraceHarvest) -> TraceHarvest {
    TraceHarvest {
        last: NO_RECORD,
        ep1: NO_RECORD,
        setup: 0,
        desc: 0,
        statusq: 0,
        armed: 0,
        arm_seq: NO_RECORD,
        setup_seq: NO_RECORD,
        connect: 0,
        addr: 0,
        addr2: 0,
        darm: NO_RECORD,
        last_setup: NO_RECORD,
        ep1_xfer: NO_RECORD,
        ep1_nrdy: 0,
        post: NO_RECORD,
        ..h
    }
}

/// What a received-SETUP or Connect Done record contributes.
pub open spec fn step_setup(h: TraceHarvest, e: TraceEntry, c: TraceCodes) -> TraceHarvest {
    let is_setup = e.event == c.setup_received;
    let h1 = if is_setup {
        TraceHarvest { setup: wrap_inc(h.setup), ..h }
    } else {
        h
    };
    let h2 = if e.event == c.device_connect {
        TraceHarvest { connect: wrap_inc(h1.connect), ..h1 }
    } else {
        h1
    };
    if is_setup {
        let h3 = if e.request == 5 {
            TraceHarvest { addr: wrap_inc(h2.addr), ..h2 }
        } else if e.request == 6 && h2.addr == 0 {
            TraceHarvest { addr2: 1, ..h2 }
        } else {
            h2
        };
        if h3.last_setup == NO_RECORD {
            TraceHarvest { last_setup: (e.request << 16u32) | (e.length & 0xffff), ..h3 }
        } else {
            h3
        }
    } else {
        h2
    }
}

/// What a descriptor-queued, status-queued, transfer-complete or
/// XferNotReady record contributes.
pub open spec fn step_phases(h: TraceHarvest, e: TraceEntry, c: TraceCodes) -> TraceHarvest {
    let h1 = if e.event == c.descriptor_queued {
        let counted = TraceHarvest { desc: wrap_inc(h.desc), ..h };
        if counted.darm == NO_RECORD && e.request == DARM_MARKER {
            TraceHarvest { darm: 0x1_0000u32 | (e.value & 1), ..counted }
        } else {
            counted
        }
    } else {
        h
    };
    let h2 = if e.event == c.status_queued {
        TraceHarvest { statusq: wrap_inc(h1.statusq), ..h1 }
    } else {
        h1
    };
    let h3 = if e.event == c.transfer_complete && e.request == 1 && e.value == 1 && h2.ep1_xfer
        == NO_RECORD {
        TraceHarvest { ep1_xfer: e.index, ..h2 }
    } else {
        h2
    };
    if e.event == c.xfer_not_ready && e.request == 1 && e.value == 1 {
        TraceHarvest { ep1_nrdy: wrap_inc(h3.ep1_nrdy), ..h3 }
    } else {
        h3
    }
}

/// The post-probe summary of a POST record.
pub open spec fn post_code(e: TraceEntry) -> u32 {
    0x1_0000u32 | (e.value & 1) | ((e.index & 1) << 1u32) | (((e.length >> 31u32) & 1) << 2u32)
}

/// What a post-probe, armed-SETUP or received-SETUP sequence record
/// contributes.
pub open spec fn step_markers(h: TraceHarvest, e: TraceEntry, c: TraceCodes) -> TraceHarvest {
    let h1 = if e.event == c.event_ring_ready && e.request == POST_MARKER && h.post == NO_RECORD {
        TraceHarvest { post: post_code(e), ..h }
    } else {
        h
    };
    let h2 = if e.event == c.setup_queued && e.request == ARMED_MARKER {
        let counted = TraceHarvest { armed: wrap_inc(h1.armed), ..h1 };
        if e.sequence < counted.arm_seq {
            TraceHarvest { arm_seq: e.sequence, ..counted }
        } else {
            counted
        }
    } else {
        h1
    };
    if e.event == c.setup_received && e.sequence < h2.setup_seq {
        TraceHarvest { setup_seq: e.sequence, ..h2 }
    } else {
        h2
    }
}

/// The recorded outcome of an endpoint command: the raw DEPCMD register,
/// with bit 31 set when the command timed out, or its low 23 bits when it
/// completed.
pub open spec fn command_outcome(raw: u32, timed_out: bool) -> u32 {
    if timed_out {
        0x8000_0000u32 | raw
    } else {
        raw & 0x7f_ffff
    }
}

/// What an endpoint-command record contributes.
pub open spec fn step_command(h: TraceHarvest, e: TraceEntry, c: TraceCodes) -> TraceHarvest {
    if e.event != c.ep_command_done && e.event != c.ep_command_timeout {
        h
    } else {
        let command = e.request & 0x0f;
        let outcome = command_outcome(e.index, e.event == c.ep_command_timeout);
        if command == DEPCMD_STARTTRANSFER {
            let h1 = if h.last == NO_RECORD {
                TraceHarvest { last: outcome, ..h }
            } else {
                h
            };
            let h2 = if e.value == 1 && h1.ep1 == NO_RECORD {
                TraceHarvest { ep1: outcome, ..h1 }
            } else {
                h1
            };
            TraceHarvest { outcome, ..h2 }
        } else if command == DEPCMD_SETTRANSFRESOURCE {
            TraceHarvest { rsc: outcome, ..h }
        } else if command == DEPCMD_DEPSTARTCFG {
            TraceHarvest { cfg: outcome, ..h }
        } else {
            h
        }
    }
}

/// What one record contributes, newest records first.
pub open spec fn harvest_step(h: TraceHarvest, e: TraceEntry, c: TraceCodes) -> TraceHarvest {
    step_command(step_markers(step_phases(step_setup(h, e, c), e, c), e, c), e, c)
}

/// Fold records (newest first) into a summary.
pub open spec fn harvest_fold(h: TraceHarvest, records: Seq<TraceEntry>, c: TraceCodes) -> TraceHarvest
    decreases records.len(),
{
    if records.len() == 0 {
        h
    } else {
        harvest_step(harvest_fold(h, records.drop_last(), c), records.last(), c)
    }
}

/// The retained records of a ring whose write counter is `head`, newest
/// first: at most one lap of the ring.
pub open spec fn newest_first(entries: Seq<TraceEntry>, head: usize) -> Seq<TraceEntry> {
    let count = if head < entries.len() {
        head as int
    } else {
        entries.len() as int
    };
    Seq::new(count as nat, |o: int| entries[(head - 1 - o) % (entries.len() as int)])
}

/// A harvest of the ring: nothing changes for a ring with a foreign header
/// or no records; otherwise the scan restarts and folds the records, and a
/// SET_ADDRESS-free scan withdraws the post-address read detection.
pub open spec fn spec_harvest(
    h: TraceHarvest,
    header_ok: bool,
    head: usize,
    entries: Seq<TraceEntry>,
    c: TraceCodes,
) -> TraceHarvest {
    if !header_ok || head == 0 {
        h
    } else {
        let folded = harvest_fold(restart_scan(h), newest_first(entries, head), c);
        if folded.addr == 0 {
            TraceHarvest { addr2: 0, ..folded }
        } else {
            folded
        }
    }
}

fn apply_setup(h: &mut TraceHarvest, e: TraceEntry, c: TraceCodes)
    ensures
        *final(h) == step_setup(*old(h), e, c),
{
    let is_setup = e.event == c.setup_received;
    if is_setup {
        h.setup = wrapping_inc(h.setup);
    }
    if e.event == c.device_connect {
        h.connect = wrapping_inc(h.connect);
    }
    if is_setup {
        if e.request == 5 {
            h.addr = wrapping_inc(h.addr);
        } else if e.request == 6 && h.addr == 0 {
            h.addr2 = 1;
        }
        if h.last_setup == NO_RECORD {
            h.last_setup = (e.request << 16) | (e.length & 0xffff);
        }
    }
}

fn apply_phases(h: &mut TraceHarvest, e: TraceEntry, c: TraceCodes)
    ensures
        *final(h) == step_phases(*old(h), e, c),
{
    if e.event == c.descriptor_queued {
        h.desc = wrapping_inc(h.desc);
        if h.darm == NO_RECORD && e.request == DARM_MARKER {
            h.darm = 0x1_0000 | (e.value & 1);
        }
    }
    if e.event == c.status_queued {
        h.statusq = wrapping_inc(h.statusq);
    }
    if e.event == c.transfer_complete && e.request == 1 && e.value == 1 && h.ep1_xfer
        == NO_RECORD {
        h.ep1_xfer = e.index;
    }
    if e.event == c.xfer_not_ready && e.request == 1 && e.value == 1 {
        h.ep1_nrdy = wrapping_inc(h.ep1_nrdy);
    }
}

fn apply_markers(h: &mut TraceHarvest, e: TraceEntry, c: TraceCodes)
    ensures
        *final(h) == step_markers(*old(h), e, c),
{
    if e.event == c.event_ring_ready && e.request == POST_MARKER && h.post == NO_RECORD {
        h.post = 0x1_0000 | (e.value & 1) | ((e.index & 1) << 1) | (((e.length >> 31) & 1) << 2);
    }
    if e.event == c.setup_queued && e.request == ARMED_MARKER {
        h.armed = wrapping_inc(h.armed);
        if e.sequence < h.arm_seq {
            h.arm_seq = e.sequence;
        }
    }
    if e.event == c.setup_received && e.sequence < h.setup_seq {
        h.setup_seq = e.sequence;
    }
}

fn apply_command(h: &mut TraceHarvest, e: TraceEntry, c: TraceCodes)
    ensures
        *final(h) == step_command(*old(h), e, c),
{
    if e.event != c.ep_command_done && e.event != c.ep_command_timeout {
        return;
    }
    let command = e.request & 0x0f;
    let outcome = if e.event == c.ep_command_timeout {
        0x8000_0000 | e.index
    } else {
        e.index & 0x7f_ffff
    };
    if command == DEPCMD_STARTTRANSFER {
        if h.last == NO_RECORD {
            h.last = outcome;
        }
        if e.value == 1 && h.ep1 == NO_RECORD {
            h.ep1 = outcome;
        }
        h.outcome = outcome;
    } else if command == DEPCMD_SETTRANSFRESOURCE {
        h.rsc = outcome;
    } else if command == DEPCMD_DEPSTARTCFG {
        h.cfg = outcome;
    }
}

/// Fold one record into the summary.
pub fn harvest_record(h: &mut TraceHarvest, e: TraceEntry, c: TraceCodes)
    ensures
        *final(h) == harvest_step(*old(h), e, c),
{
    apply_setup(h, e, c);
    apply_phases(h, e, c);
    apply_markers(h, e, c);
    apply_command(h, e, c);
}

/// Whether a ring's header words are this build's: its magic and its
/// layout version.
pub open spec fn spec_trace_header_ok(magic: u32, version: u32, c: TraceCodes) -> bool {
    magic == c.trace_magic && version == c.trace_version
}

/// Whether a ring's header words are this build's.
pub fn trace_header_ok(magic: u32, version: u32, c: TraceCodes) -> (ok: bool)
    ensures
        ok == spec_trace_header_ok(magic, version, c),
{
    magic == c.trace_magic && version == c.trace_version
}

/// Harvest the retained ring `entries` (one slot per record, written
/// round-robin; `head` counts every record ever written) whose header holds
/// `magic` and `version`.
pub fn harvest_trace(
    h: &mut TraceHarvest,
    magic: u32,
    version: u32,
    head: usize,
    entries: &[TraceEntry],
    c: TraceCodes,
)
    requires
        entries@.len() > 0,
    ensures
        *final(h) == spec_harvest(*old(h), spec_trace_header_ok(magic, version, c), head, entries@, c),
{
    if !trace_header_ok(magic, version, c) || head == 0 {
        return;
    }
    let capacity = entries.len();
    let count = if head < capacity {
        head
    } else {
        capacity
    };
    let ghost records = newest_first(entries@, head);
    let ghost start = restart_scan(*h);
    h.last = NO_RECORD;
    h.ep1 = NO_RECORD;
    h.setup = 0;
    h.desc = 0;
    h.statusq = 0;
    h.armed = 0;
    h.arm_seq = NO_RECORD;
    h.setup_seq = NO_RECORD;
    h.connect = 0;
    h.addr = 0;
    h.addr2 = 0;
    h.darm = NO_RECORD;
    h.last_setup = NO_RECORD;
    h.ep1_xfer = NO_RECORD;
    h.ep1_nrdy = 0;
    h.post = NO_RECORD;
    assert(*h == start);
    let mut offset: usize = 0;
    while offset < count
        invariant
            offset <= count,
            count <= head,
            count <= capacity,
            capacity == entries@.len(),
            records == newest_first(entries@, head),
            records.len() == count,
            *h == harvest_fold(start, records.subrange(0, offset as int), c),
        decreases count - offset,
    {
        let slot = (head - 1 - offset) % capacity;
        let e = entries[slot];
        assert(e == records[offset as int]);
        assert(records.subrange(0, offset as int + 1).drop_last() == records.subrange(
            0,
            offset as int,
        ));
        harvest_record(h, e, c);
        offset += 1;
    }
    assert(records.subrange(0, count as int) == records);
    if h.addr == 0 {
        h.addr2 = 0;
    }
}

/// The composite enumeration-progress code (1..=10) of a harvest. At the
/// data-phase post-mortem the answer depends on whether the core cleared
/// HWO in the endpoint-1 data TRB (`data_trb_ctrl`).
pub open spec fn spec_diag_code(h: TraceHarvest, data_trb_ctrl: u32) -> u32 {
    if h.setup == 0 {
        1
    } else if h.setup < 2 {
        2
    } else if h.desc < 4 {
        3
    } else if h.darm != 0x1_0001 {
        4
    } else if h.ep1_nrdy < 2 {
        5
    } else if h.ep1_xfer != NO_RECORD {
        if h.statusq >= 1 {
            10
        } else {
            7
        }
    } else if data_trb_ctrl & TRB_HWO == 0 {
        8
    } else {
        9
    }
}

/// The composite enumeration-progress code.
pub fn diag_readout_code(h: &TraceHarvest, data_trb_ctrl: u32) -> (code: u32)
    ensures
        code == spec_diag_code(*h, data_trb_ctrl),
        1 <= code <= 10,
{
    let mut code = 1u32;
    if h.setup > 0 {
        code = 2;
        if h.setup >= 2 {
            code = 3;
            if h.desc >= 4 {
                code = 4;
                if h.darm == 0x1_0001 {
                    code = 5;
                    if h.ep1_nrdy >= 2 {
                        code = 6;
                        if h.ep1_xfer != NO_RECORD {
                            code = 7;
                            if h.statusq >= 1 {
                                code = 10;
                            }
                        } else if data_trb_ctrl & TRB_HWO == 0 {
                            code = 8;
                        } else {
                            code = 9;
                        }
                    }
                }
            }
        }
    }
    code
}

/// The trace record the post-Run/Stop event-DMA probe leaves: whether its
/// STARTTRANSFER and End Transfer returned, and the first event word with
/// bit 31 set when the ring received one.
pub open spec fn spec_post_probe_record(
    sequence: u32,
    event_ring_ready: u32,
    started: bool,
    ended: bool,
    event_word: u32,
    delivered: bool,
) -> TraceEntry {
    TraceEntry {
        sequence,
        event: event_ring_ready,
        request: POST_MARKER,
        value: if started {
            1
        } else {
            0
        },
        index: if ended {
            1
        } else {
            0
        },
        length: event_word | if delivered {
            0x8000_0000u32
        } else {
            0u32
        },
    }
}

/// Build the post-Run/Stop probe record.
pub fn post_probe_record(
    sequence: u32,
    event_ring_ready: u32,
    started: bool,
    ended: bool,
    event_word: u32,
    delivered: bool,
) -> (e: TraceEntry)
    ensures
        e == spec_post_probe_record(sequence, event_ring_ready, started, ended, event_word, delivered),
{
    TraceEntry {
        sequence,
        event: event_ring_ready,
        request: POST_MARKER,
        value: if started {
            1
        } else {
            0
        },
        index: if ended {
            1
        } else {
            0
        },
        length: event_word | if delivered {
            0x8000_0000
        } else {
            0
        },
    }
}

/// The trace record of a data-stage arm: whether it was queued.
pub open spec fn spec_data_arm_record(sequence: u32, descriptor_queued: u32, queued: bool, length: u32) -> TraceEntry {
    TraceEntry {
        sequence,
        event: descriptor_queued,
        request: DARM_MARKER,
        value: if queued {
            1
        } else {
            0
        },
        index: 0,
        length,
    }
}

/// Build a data-stage arm record.
pub fn data_arm_record(sequence: u32, descriptor_queued: u32, queued: bool, length: u32) -> (e:
    TraceEntry)
    ensures
        e == spec_data_arm_record(sequence, descriptor_queued, queued, length),
{
    TraceEntry {
        sequence,
        event: descriptor_queued,
        request: DARM_MARKER,
        value: if queued {
            1
        } else {
            0
        },
        index: 0,
        length,
    }
}

/// 1 for true, 0 for false.
pub open spec fn flag_bit(b: bool) -> u32 {
    if b {
        1
    } else {
        0
    }
}

/// What the post-Run/Stop probe records is what the harvest reads back:
/// the newest probe record harvests to `0x1_0000 | started | ended << 1 |
/// delivered << 2` (the probe only carries an event word once the ring
/// received one).
pub proof fn lemma_post_record_harvests_back(
    h: TraceHarvest,
    c: TraceCodes,
    sequence: u32,
    started: bool,
    ended: bool,
    event_word: u32,
    delivered: bool,
)
    requires
        h.post == NO_RECORD,
        !delivered ==> event_word == 0,
    ensures
        harvest_step(
            h,
            spec_post_probe_record(sequence, c.event_ring_ready, started, ended, event_word, delivered),
            c,
        ).post == 0x1_0000u32 | flag_bit(started) | (flag_bit(ended) << 1u32) | (flag_bit(delivered)
            << 2u32),
{
    let e = spec_post_probe_record(sequence, c.event_ring_ready, started, ended, event_word, delivered);
    let s = flag_bit(started);
    let d = flag_bit(ended);
    let v = flag_bit(delivered);
    let w: u32 = if delivered {
        0x8000_0000
    } else {
        0
    };
    assert(e.length == event_word | w);
    assert(post_code(e) == 0x1_0000u32 | s | (d << 1u32) | (v << 2u32)) by {
        assert((s & 1) == s && (d & 1) == d && (((event_word | w) >> 31u32) & 1) == v) by (bit_vector)
            requires
                s <= 1,
                d <= 1,
                (v == 1 && w == 0x8000_0000) || (v == 0 && w == 0 && event_word == 0),
        ;
    }
}

/// What a data-stage arm records is what the harvest reads back: the
/// newest arm record harvests to `0x1_0000 | queued`, and a queued-arm check
/// on the harvest holds exactly when it was.
pub proof fn lemma_data_arm_record_harvests_back(
    h: TraceHarvest,
    c: TraceCodes,
    sequence: u32,
    queued: bool,
    length: u32,
)
    requires
        h.darm == NO_RECORD,
    ensures
        harvest_step(h, spec_data_arm_record(sequence, c.descriptor_queued, queued, length), c).darm
            == 0x1_0000u32 | flag_bit(queued),
        (harvest_step(h, spec_data_arm_record(sequence, c.descriptor_queued, queued, length), c).darm
            == 0x1_0001u32) == queued,
{
    let q = flag_bit(queued);
    assert((q & 1) == q && ((0x1_0000u32 | q) == 0x1_0001u32) == (q == 1)) by (bit_vector)
        requires
            q <= 1,
    ;
}

} // verus!
