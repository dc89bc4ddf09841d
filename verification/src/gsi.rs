//! Qualcomm GSI data channels: the circular TRB ring the GSI wrapper
//! consumes, and the per-channel ownership state (configured, started,
//! pending request) across configure, update, end, reset and completion.
//!
//! Channel `i` (0..3) belongs to event buffer `i + 1`.

use vstd::prelude::*;
use crate::endpoint::Trb;
use crate::mmio::{
    DEPCMD_ENDTRANSFER, DEPCMD_HIPRI_FORCERM, DEPCMD_PARAM_SHIFT, DEPCMD_UPDATETRANSFER,
    GSI_EVENT_ADDR_INDEX_SHIFT, GSI_TRB_ADDR_BIT_53, GSI_TRB_ADDR_BIT_55, TRB_CSP, TRB_HWO,
    TRB_IOC, TRB_ISP_IMI, TRB_LINK, TRB_NORMAL,
};

verus! {

/// The most TRBs a GSI ring may have.
pub const GSI_MAX_RING_TRBS: usize = 10;

/// Bytes of one TRB.
pub const TRB_BYTES: u64 = 16;

/// The layout of a GSI ring: its TRB count, how many TRBs carry request
/// buffers, and the first of them.
#[derive(Clone, Copy, PartialEq, Eq, Debug)]
pub struct GsiRingShape {
    pub num_trbs: usize,
    pub data_trbs: usize,
    pub first_buffer_trb: usize,
}

/// `a * b`, saturating at `usize::MAX`.
pub open spec fn sat_mul(a: int, b: int) -> int {
    if a * b > usize::MAX {
        usize::MAX as int
    } else {
        a * b
    }
}

/// `a + b`, saturating at `usize::MAX`.
pub open spec fn sat_add(a: int, b: int) -> int {
    if a + b > usize::MAX {
        usize::MAX as int
    } else {
        a + b
    }
}

/// The address of request buffer `k` of the pool at `base`.
pub open spec fn buffer_address(base: usize, k: int, length: usize) -> u64 {
    sat_add(base as int, sat_mul(k, length as int)) as u64
}

fn buffer_address_exec(base: usize, k: usize, length: usize) -> (a: u64)
    ensures
        a == buffer_address(base, k as int, length),
{
    let offset = match k.checked_mul(length) {
        Some(o) => o,
        None => usize::MAX,
    };
    let address = match base.checked_add(offset) {
        Some(a) => a,
        None => usize::MAX,
    };
    address as u64
}

/// TRB `i` of a ring of `n`: the last is a link back to the ring start
/// carrying the address-extension bits and event-buffer index; an IN ring
/// has zero-length normal TRBs before its buffer TRBs; an OUT ring starts
/// with a link to its second TRB and then buffer TRBs owned only once the
/// transfer is updated.
pub open spec fn spec_gsi_ring_trb(
    i: int,
    n: int,
    in_direction: bool,
    event_index: u32,
    ring_base: u64,
    buffer_base: usize,
    buffer_length: usize,
    first_buffer_trb: usize,
) -> Trb {
    if i == n - 1 {
        Trb {
            bpl: ring_base as u32,
            bph: ((ring_base >> 32u64) as u32) | GSI_TRB_ADDR_BIT_53 | GSI_TRB_ADDR_BIT_55 | ((
            event_index + 1) as u32) << GSI_EVENT_ADDR_INDEX_SHIFT,
            size: 0,
            ctrl: TRB_LINK | TRB_HWO,
        }
    } else if in_direction {
        let address = if i >= first_buffer_trb {
            buffer_address(buffer_base, i - first_buffer_trb, buffer_length)
        } else {
            0u64
        };
        Trb {
            bpl: address as u32,
            bph: (address >> 32u64) as u32,
            size: 0,
            ctrl: TRB_NORMAL | TRB_IOC,
        }
    } else if i == 0 {
        let next = (ring_base + TRB_BYTES) as u64;
        Trb { bpl: next as u32, bph: (next >> 32u64) as u32, size: 0, ctrl: TRB_LINK }
    } else {
        let address = buffer_address(buffer_base, i - 1, buffer_length);
        Trb {
            bpl: address as u32,
            bph: (address >> 32u64) as u32,
            size: buffer_length as u32,
            ctrl: TRB_NORMAL | TRB_IOC | TRB_CSP | TRB_ISP_IMI,
        }
    }
}

fn gsi_ring_trb(
    i: usize,
    n: usize,
    in_direction: bool,
    event_index: u32,
    ring_base: u64,
    buffer_base: usize,
    buffer_length: usize,
    first_buffer_trb: usize,
) -> (t: Trb)
    requires
        i < n,
        event_index < 3,
        ring_base <= u64::MAX - TRB_BYTES,
    ensures
        t == spec_gsi_ring_trb(
            i as int,
            n as int,
            in_direction,
            event_index,
            ring_base,
            buffer_base,
            buffer_length,
            first_buffer_trb,
        ),
{
    if i == n - 1 {
        Trb {
            bpl: ring_base as u32,
            bph: ((ring_base >> 32) as u32) | GSI_TRB_ADDR_BIT_53 | GSI_TRB_ADDR_BIT_55 | ((
            event_index + 1) << GSI_EVENT_ADDR_INDEX_SHIFT),
            size: 0,
            ctrl: TRB_LINK | TRB_HWO,
        }
    } else if in_direction {
        let address = if i >= first_buffer_trb {
            buffer_address_exec(buffer_base, i - first_buffer_trb, buffer_length)
        } else {
            0
        };
        Trb { bpl: address as u32, bph: (address >> 32) as u32, size: 0, ctrl: TRB_NORMAL | TRB_IOC }
    } else if i == 0 {
        let next = ring_base + TRB_BYTES;
        Trb { bpl: next as u32, bph: (next >> 32) as u32, size: 0, ctrl: TRB_LINK }
    } else {
        let address = buffer_address_exec(buffer_base, i - 1, buffer_length);
        Trb {
            bpl: address as u32,
            bph: (address >> 32) as u32,
            size: buffer_length as u32,
            ctrl: TRB_NORMAL | TRB_IOC | TRB_CSP | TRB_ISP_IMI,
        }
    }
}

/// Whether a ring can be prepared: at most `GSI_MAX_RING_TRBS` TRBs, ring
/// and buffer pool inside the DMA pool (`ring_ok`, `buffers_ok`), and a
/// nonzero buffer length.
pub open spec fn gsi_ring_ok(shape: GsiRingShape, ring_ok: bool, buffers_ok: bool, buffer_length: usize) -> bool {
    shape.num_trbs <= GSI_MAX_RING_TRBS && ring_ok && buffers_ok && buffer_length != 0
}

/// Prepare the ring of channel `event_index` for `endpoint` (odd = IN).
pub fn prepare_gsi_ring(
    event_index: u32,
    endpoint: usize,
    ring_base: u64,
    buffer_base: usize,
    buffer_length: usize,
    shape: GsiRingShape,
    ring_ok: bool,
    buffers_ok: bool,
) -> (r: Option<Vec<Trb>>)
    requires
        event_index < 3,
        ring_base <= u64::MAX - TRB_BYTES,
    ensures
        match r {
            Some(ring) => {
                &&& gsi_ring_ok(shape, ring_ok, buffers_ok, buffer_length)
                &&& ring@.len() == shape.num_trbs
                &&& forall|i: int|
                    0 <= i < shape.num_trbs ==> #[trigger] ring@[i] == spec_gsi_ring_trb(
                        i,
                        shape.num_trbs as int,
                        endpoint % 2 == 1,
                        event_index,
                        ring_base,
                        buffer_base,
                        buffer_length,
                        shape.first_buffer_trb,
                    )
            },
            None => !gsi_ring_ok(shape, ring_ok, buffers_ok, buffer_length),
        },
{
    if shape.num_trbs > GSI_MAX_RING_TRBS || !ring_ok || !buffers_ok || buffer_length == 0 {
        return None;
    }
    let in_direction = endpoint % 2 == 1;
    let mut ring: Vec<Trb> = Vec::new();
    let mut i: usize = 0;
    while i < shape.num_trbs
        invariant
            i <= shape.num_trbs,
            ring@.len() == i,
            event_index < 3,
            ring_base <= u64::MAX - TRB_BYTES,
            in_direction == (endpoint % 2 == 1),
            forall|j: int|
                0 <= j < i ==> #[trigger] ring@[j] == spec_gsi_ring_trb(
                    j,
                    shape.num_trbs as int,
                    in_direction,
                    event_index,
                    ring_base,
                    buffer_base,
                    buffer_length,
                    shape.first_buffer_trb,
                ),
        decreases shape.num_trbs - i,
    {
        let t = gsi_ring_trb(
            i,
            shape.num_trbs,
            in_direction,
            event_index,
            ring_base,
            buffer_base,
            buffer_length,
            shape.first_buffer_trb,
        );
        ring.push(t);
        i += 1;
    }
    Some(ring)
}

/// One channel's state.
#[derive(Clone, Copy, PartialEq, Eq, Debug)]
pub struct GsiChannel {
    pub ready: bool,
    pub endpoint: usize,
    pub ring_base: u64,
    pub trb_count: usize,
    pub buffer_base: u64,
    pub buffer_length: usize,
    pub doorbell: u64,
    pub resource_index: u8,
    pub ring_active: bool,
    pub pending: bool,
    pub request_slot: Option<usize>,
}

impl GsiChannel {
    /// A channel that was never configured.
    pub open spec fn spec_empty() -> GsiChannel {
        GsiChannel {
            ready: false,
            endpoint: 0,
            ring_base: 0,
            trb_count: 0,
            buffer_base: 0,
            buffer_length: 0,
            doorbell: 0,
            resource_index: 0,
            ring_active: false,
            pending: false,
            request_slot: None,
        }
    }

    /// A channel that was never configured.
    pub fn empty() -> (c: GsiChannel)
        ensures
            c == GsiChannel::spec_empty(),
    {
        GsiChannel {
            ready: false,
            endpoint: 0,
            ring_base: 0,
            trb_count: 0,
            buffer_base: 0,
            buffer_length: 0,
            doorbell: 0,
            resource_index: 0,
            ring_active: false,
            pending: false,
            request_slot: None,
        }
    }
}

/// The three channels.
pub struct GsiChannels {
    pub channels: Vec<GsiChannel>,
}

impl GsiChannels {
    /// There are exactly three channels.
    pub open spec fn wf(&self) -> bool {
        self.channels@.len() == 3
    }

    /// No channel configured.
    pub fn new() -> (c: GsiChannels)
        ensures
            c.wf(),
            forall|i: int| 0 <= i < 3 ==> #[trigger] c.channels@[i] == GsiChannel::spec_empty(),
    {
        let mut channels: Vec<GsiChannel> = Vec::new();
        channels.push(GsiChannel::empty());
        channels.push(GsiChannel::empty());
        channels.push(GsiChannel::empty());
        GsiChannels { channels }
    }
}

/// The usable event-buffer count: at most three channels exist.
pub open spec fn channel_count(event_buffer_count: u32) -> u32 {
    if event_buffer_count < 3 {
        event_buffer_count
    } else {
        3
    }
}

/// Whether a channel may be configured with these parameters.
pub open spec fn channel_config_ok(
    event_buffer_count: u32,
    endpoint: usize,
    event_buffer: u32,
    ring_base: u64,
    doorbell: u64,
    buffer_base: u64,
    buffer_length: usize,
) -> bool {
    &&& endpoint >= 2
    &&& 1 <= event_buffer <= channel_count(event_buffer_count)
    &&& ring_base != 0 && ring_base % 0x400 == 0
    &&& doorbell != 0 && doorbell % 4 == 0 && doorbell < 0x1_0000_0000
    &&& buffer_base <= usize::MAX
    &&& buffer_length != 0
}

/// The QSCRATCH words a configured channel publishes: ring base and
/// doorbell, each as low and high halves.
#[derive(Clone, Copy, PartialEq, Eq, Debug)]
pub struct GsiChannelWords {
    pub ring_low: u32,
    pub ring_high: u32,
    pub doorbell_low: u32,
    pub doorbell_high: u32,
}

/// The result of configuring a channel: its index, its ring and the words
/// to publish.
pub struct GsiChannelSetup {
    pub index: usize,
    pub ring: Vec<Trb>,
    pub words: GsiChannelWords,
}

/// The channel state after a successful configuration.
pub open spec fn configured_channel(
    endpoint: usize,
    ring_base: u64,
    doorbell: u64,
    buffer_base: u64,
    buffer_length: usize,
    shape: GsiRingShape,
) -> GsiChannel {
    GsiChannel {
        ready: true,
        endpoint,
        ring_base,
        trb_count: shape.num_trbs,
        buffer_base,
        buffer_length,
        doorbell,
        resource_index: 0,
        ring_active: false,
        pending: false,
        request_slot: None,
    }
}

/// Configure a channel for `endpoint` on `event_buffer` with its ring at
/// `ring_base`, the client's doorbell, and the request pool.
pub fn configure_gsi_channel_with_buffers(
    c: &mut GsiChannels,
    event_buffer_count: u32,
    endpoint: usize,
    event_buffer: u32,
    ring_base: u64,
    doorbell: u64,
    buffer_base: u64,
    buffer_length: usize,
    shape: GsiRingShape,
    ring_ok: bool,
    buffers_ok: bool,
) -> (r: Option<GsiChannelSetup>)
    requires
        old(c).wf(),
        ring_base <= u64::MAX - TRB_BYTES,
    ensures
        final(c).wf(),
        match r {
            Some(setup) => {
                &&& channel_config_ok(
                    event_buffer_count,
                    endpoint,
                    event_buffer,
                    ring_base,
                    doorbell,
                    buffer_base,
                    buffer_length,
                )
                &&& gsi_ring_ok(shape, ring_ok, buffers_ok, buffer_length)
                &&& setup.index == event_buffer - 1
                &&& setup.ring@.len() == shape.num_trbs
                &&& forall|i: int|
                    0 <= i < shape.num_trbs ==> #[trigger] setup.ring@[i] == spec_gsi_ring_trb(
                        i,
                        shape.num_trbs as int,
                        endpoint % 2 == 1,
                        (event_buffer - 1) as u32,
                        ring_base,
                        buffer_base as usize,
                        buffer_length,
                        shape.first_buffer_trb,
                    )
                &&& setup.words == (GsiChannelWords {
                    ring_low: ring_base as u32,
                    ring_high: (ring_base >> 32u64) as u32,
                    doorbell_low: doorbell as u32,
                    doorbell_high: (doorbell >> 32u64) as u32,
                })
                &&& final(c).channels@ == old(c).channels@.update(
                    setup.index as int,
                    configured_channel(endpoint, ring_base, doorbell, buffer_base, buffer_length, shape),
                )
            },
            None => {
                &&& !(channel_config_ok(
                    event_buffer_count,
                    endpoint,
                    event_buffer,
                    ring_base,
                    doorbell,
                    buffer_base,
                    buffer_length,
                ) && gsi_ring_ok(shape, ring_ok, buffers_ok, buffer_length))
                &&& final(c).channels@ == old(c).channels@
            },
        },
{
    let count: u32 = if event_buffer_count < 3 {
        event_buffer_count
    } else {
        3
    };
    let ring_aligned = ring_base & 0x3ff == 0;
    assert(ring_aligned == (ring_base % 0x400 == 0)) by (bit_vector)
        requires
            ring_aligned == (ring_base & 0x3ff == 0),
    ;
    let doorbell_aligned = doorbell & 0x3 == 0;
    assert(doorbell_aligned == (doorbell % 4 == 0)) by (bit_vector)
        requires
            doorbell_aligned == (doorbell & 0x3 == 0),
    ;
    let doorbell_low = doorbell >> 32 == 0;
    assert(doorbell_low == (doorbell < 0x1_0000_0000)) by (bit_vector)
        requires
            doorbell_low == (doorbell >> 32u64 == 0),
    ;
    if endpoint < 2 || event_buffer == 0 || event_buffer > count || ring_base == 0
        || !ring_aligned || doorbell == 0 || !doorbell_aligned || !doorbell_low || buffer_base
        > usize::MAX as u64 || buffer_length == 0 {
        return None;
    }
    let index = (event_buffer - 1) as usize;
    let ring = match prepare_gsi_ring(
        event_buffer - 1,
        endpoint,
        ring_base,
        buffer_base as usize,
        buffer_length,
        shape,
        ring_ok,
        buffers_ok,
    ) {
        Some(ring) => ring,
        None => return None,
    };
    c.channels.set(
        index,
        GsiChannel {
            ready: true,
            endpoint,
            ring_base,
            trb_count: shape.num_trbs,
            buffer_base,
            buffer_length,
            doorbell,
            resource_index: 0,
            ring_active: false,
            pending: false,
            request_slot: None,
        },
    );
    Some(
        GsiChannelSetup {
            index,
            ring,
            words: GsiChannelWords {
                ring_low: ring_base as u32,
                ring_high: (ring_base >> 32) as u32,
                doorbell_low: doorbell as u32,
                doorbell_high: (doorbell >> 32) as u32,
            },
        },
    )
}

/// The channel index of an event buffer accepted by the data-path
/// operations (update, end): endpoint 2..8 and buffer 1..=count.
pub open spec fn data_channel_ok(event_buffer_count: u32, endpoint: usize, event_buffer: u32) -> bool {
    2 <= endpoint < 8 && 1 <= event_buffer <= channel_count(event_buffer_count)
}

/// What updating an OUT channel's transfer asks for.
#[derive(Clone, Copy, PartialEq, Eq, Debug)]
pub enum GsiUpdate {
    /// Nothing may be done.
    Refused,
    /// Hand TRBs `first..end` to the hardware; the update then fails (no
    /// transfer resource yet).
    MarkOnly { first: usize, end: usize },
    /// Hand TRBs `first..end` to the hardware, then issue `command`.
    Issue { first: usize, end: usize, command: u32 },
}

/// The update of `endpoint`'s OUT channel on `event_buffer`.
pub open spec fn spec_gsi_update(
    ch: GsiChannel,
    event_buffer_count: u32,
    endpoint: usize,
    event_buffer: u32,
    out_shape: Option<GsiRingShape>,
) -> GsiUpdate {
    if !data_channel_ok(event_buffer_count, endpoint, event_buffer) || !ch.ready || ch.endpoint
        != endpoint || ch.ring_base == 0 || ch.ring_active || endpoint % 2 != 0 {
        GsiUpdate::Refused
    } else {
        match out_shape {
            None => GsiUpdate::Refused,
            Some(shape) => if ch.resource_index == 0 {
                GsiUpdate::MarkOnly {
                    first: shape.first_buffer_trb,
                    end: (shape.first_buffer_trb + shape.data_trbs) as usize,
                }
            } else {
                GsiUpdate::Issue {
                    first: shape.first_buffer_trb,
                    end: (shape.first_buffer_trb + shape.data_trbs) as usize,
                    command: DEPCMD_UPDATETRANSFER | ((ch.resource_index as u32)
                        << DEPCMD_PARAM_SHIFT),
                }
            },
        }
    }
}

/// Plan the update of an OUT channel's transfer (`out_shape` is the OUT
/// ring layout).
pub fn gsi_update_plan(
    c: &GsiChannels,
    event_buffer_count: u32,
    endpoint: usize,
    event_buffer: u32,
    out_shape: Option<GsiRingShape>,
) -> (u: GsiUpdate)
    requires
        c.wf(),
        out_shape matches Some(s) ==> s.first_buffer_trb + s.data_trbs <= usize::MAX,
    ensures
        u == if 1 <= event_buffer <= 3 {
            spec_gsi_update(c.channels@[event_buffer - 1], event_buffer_count, endpoint, event_buffer, out_shape)
        } else {
            GsiUpdate::Refused
        },
{
    let count: u32 = if event_buffer_count < 3 {
        event_buffer_count
    } else {
        3
    };
    if endpoint < 2 || endpoint >= 8 || event_buffer == 0 || event_buffer > count {
        return GsiUpdate::Refused;
    }
    let ch = c.channels[(event_buffer - 1) as usize];
    if !ch.ready || ch.endpoint != endpoint || ch.ring_base == 0 || ch.ring_active || endpoint % 2
        != 0 {
        return GsiUpdate::Refused;
    }
    match out_shape {
        None => GsiUpdate::Refused,
        Some(shape) => {
            let end = shape.first_buffer_trb + shape.data_trbs;
            if ch.resource_index == 0 {
                GsiUpdate::MarkOnly { first: shape.first_buffer_trb, end }
            } else {
                GsiUpdate::Issue {
                    first: shape.first_buffer_trb,
                    end,
                    command: DEPCMD_UPDATETRANSFER | ((ch.resource_index as u32)
                        << DEPCMD_PARAM_SHIFT),
                }
            }
        },
    }
}

/// The controller accepted the update: the channel's ring is live.
pub fn gsi_transfer_updated(c: &mut GsiChannels, index: usize)
    requires
        old(c).wf(),
        index < 3,
    ensures
        final(c).wf(),
        final(c).channels@ == old(c).channels@.update(
            index as int,
            GsiChannel { ring_active: true, ..old(c).channels@[index as int] },
        ),
{
    let ch = c.channels[index];
    c.channels.set(index, GsiChannel { ring_active: true, ..ch });
}

/// The End Transfer command of a started channel, or `None` when the
/// channel is not configured for `endpoint` or has no transfer resource.
pub open spec fn spec_gsi_end(
    ch: GsiChannel,
    event_buffer_count: u32,
    endpoint: usize,
    event_buffer: u32,
) -> Option<u32> {
    if !data_channel_ok(event_buffer_count, endpoint, event_buffer) || !ch.ready || ch.endpoint
        != endpoint || ch.resource_index == 0 {
        None
    } else {
        Some(
            DEPCMD_ENDTRANSFER | DEPCMD_HIPRI_FORCERM | ((ch.resource_index as u32)
                << DEPCMD_PARAM_SHIFT),
        )
    }
}

/// Plan stopping a channel's transfer.
pub fn gsi_end_plan(c: &GsiChannels, event_buffer_count: u32, endpoint: usize, event_buffer: u32) -> (r:
    Option<u32>)
    requires
        c.wf(),
    ensures
        r == if 1 <= event_buffer <= 3 {
            spec_gsi_end(c.channels@[event_buffer - 1], event_buffer_count, endpoint, event_buffer)
        } else {
            None::<u32>
        },
{
    let count: u32 = if event_buffer_count < 3 {
        event_buffer_count
    } else {
        3
    };
    if endpoint < 2 || endpoint >= 8 || event_buffer == 0 || event_buffer > count {
        return None;
    }
    let ch = c.channels[(event_buffer - 1) as usize];
    if !ch.ready || ch.endpoint != endpoint || ch.resource_index == 0 {
        return None;
    }
    Some(DEPCMD_ENDTRANSFER | DEPCMD_HIPRI_FORCERM | ((ch.resource_index as u32)
        << DEPCMD_PARAM_SHIFT))
}

/// The transfer stopped: the ring is idle and no request is outstanding.
pub fn gsi_transfer_ended(c: &mut GsiChannels, index: usize)
    requires
        old(c).wf(),
        index < 3,
    ensures
        final(c).wf(),
        final(c).channels@ == old(c).channels@.update(
            index as int,
            GsiChannel {
                ring_active: false,
                pending: false,
                request_slot: None,
                ..old(c).channels@[index as int]
            },
        ),
{
    let ch = c.channels[index];
    c.channels.set(index, GsiChannel { ring_active: false, pending: false, request_slot: None, ..ch });
}

/// The doorbell write of a channel: the doorbell address and the bus
/// address of the ring's closing link TRB, when the channel has a doorbell
/// and ring and that TRB lies in the DMA pool (`link_ok`).
pub open spec fn spec_doorbell(ch: GsiChannel) -> Option<(u64, u64)> {
    if ch.doorbell == 0 || ch.ring_base == 0 || ch.trb_count == 0 {
        None
    } else if (ch.trb_count - 1) * 16 > usize::MAX || ch.ring_base + (ch.trb_count - 1) * 16
        > u64::MAX {
        None
    } else {
        Some((ch.doorbell, (ch.ring_base + (ch.trb_count - 1) * 16) as u64))
    }
}

/// Plan ringing a channel's doorbell.
pub fn gsi_doorbell(c: &GsiChannels, index: usize, link_ok: bool) -> (r: Option<(u64, u64)>)
    requires
        c.wf(),
    ensures
        r == if index < 3 && link_ok {
            spec_doorbell(c.channels@[index as int])
        } else {
            None::<(u64, u64)>
        },
{
    if index >= 3 || !link_ok {
        return None;
    }
    let ch = c.channels[index];
    if ch.doorbell == 0 || ch.ring_base == 0 || ch.trb_count == 0 {
        return None;
    }
    let offset = match (ch.trb_count - 1).checked_mul(16) {
        Some(o) => o,
        None => return None,
    };
    match ch.ring_base.checked_add(offset as u64) {
        Some(link) => Some((ch.doorbell, link)),
        None => None,
    }
}

/// What resetting a channel must undo first: a live transfer to end, a
/// request slot to release (on the endpoint's address) and an endpoint to
/// disable.
#[derive(Clone, Copy, PartialEq, Eq, Debug)]
pub struct GsiTeardown {
    pub end_transfer: bool,
    pub release: Option<(u8, usize)>,
    pub disable_endpoint: Option<usize>,
}

/// The endpoint address of a GSI endpoint: odd endpoints are IN.
pub open spec fn gsi_address(endpoint: usize) -> u8 {
    ((endpoint as u8) | if endpoint % 2 == 1 {
        0x80u8
    } else {
        0u8
    }) as u8
}

/// The teardown of one channel at reset.
pub open spec fn spec_teardown(ch: GsiChannel) -> GsiTeardown {
    GsiTeardown {
        end_transfer: ch.ring_active && ch.endpoint >= 2 && ch.resource_index != 0,
        release: match ch.request_slot {
            Some(slot) => Some((gsi_address(ch.endpoint), slot)),
            None => None,
        },
        disable_endpoint: if ch.ready && ch.endpoint >= 2 {
            Some(ch.endpoint)
        } else {
            None
        },
    }
}

fn gsi_address_exec(endpoint: usize) -> (a: u8)
    ensures
        a == gsi_address(endpoint),
{
    (endpoint as u8) | if endpoint % 2 == 1 {
        0x80u8
    } else {
        0u8
    }
}

/// Reset every channel (bus reset or unbind): report what each needs torn
/// down, in channel order, and leave all of them unconfigured.
pub fn reset_gsi_channels(c: &mut GsiChannels) -> (t: Vec<GsiTeardown>)
    requires
        old(c).wf(),
    ensures
        final(c).wf(),
        t@.len() == 3,
        forall|i: int| 0 <= i < 3 ==> #[trigger] t@[i] == spec_teardown(old(c).channels@[i]),
        forall|i: int| 0 <= i < 3 ==> #[trigger] final(c).channels@[i] == GsiChannel::spec_empty(),
{
    let mut t: Vec<GsiTeardown> = Vec::new();
    let mut i: usize = 0;
    while i < 3
        invariant
            i <= 3,
            c.wf(),
            t@.len() == i,
            forall|j: int| 0 <= j < i ==> #[trigger] t@[j] == spec_teardown(old(c).channels@[j]),
            forall|j: int| 0 <= j < i ==> #[trigger] c.channels@[j] == GsiChannel::spec_empty(),
            forall|j: int| i <= j < 3 ==> #[trigger] c.channels@[j] == old(c).channels@[j],
        decreases 3 - i,
    {
        let ch = c.channels[i];
        t.push(
            GsiTeardown {
                end_transfer: ch.ring_active && ch.endpoint >= 2 && ch.resource_index != 0,
                release: match ch.request_slot {
                    Some(slot) => Some((gsi_address_exec(ch.endpoint), slot)),
                    None => None,
                },
                disable_endpoint: if ch.ready && ch.endpoint >= 2 {
                    Some(ch.endpoint)
                } else {
                    None
                },
            },
        );
        c.channels.set(i, GsiChannel::empty());
        i += 1;
    }
    t
}

/// Whether a request may be queued on a channel: a valid data endpoint and
/// buffer, the channel configured for the endpoint and idle, and the
/// request's buffer and length those the channel was configured with, its
/// pool inside the DMA pool (`pool_ok`).
pub open spec fn spec_queue_ok(
    ch: GsiChannel,
    event_buffer_count: u32,
    endpoint: usize,
    event_buffer: u32,
    buffer: u64,
    length: usize,
    pool_ok: bool,
) -> bool {
    &&& 2 <= endpoint < 8
    &&& 1 <= event_buffer <= event_buffer_count
    &&& length != 0
    &&& ch.endpoint == endpoint
    &&& ch.ready
    &&& !ch.pending
    &&& buffer == ch.buffer_base
    &&& length == ch.buffer_length
    &&& pool_ok
}

/// Check a GSI request before it is queued. Event buffers above the third
/// have no channel.
pub fn gsi_queue_check(
    c: &GsiChannels,
    event_buffer_count: u32,
    endpoint: usize,
    event_buffer: u32,
    buffer: u64,
    length: usize,
    pool_ok: bool,
) -> (ok: bool)
    requires
        c.wf(),
        event_buffer == 0 || event_buffer > event_buffer_count || event_buffer <= 3,
    ensures
        ok == (1 <= event_buffer <= 3 && spec_queue_ok(
            c.channels@[event_buffer - 1],
            event_buffer_count,
            endpoint,
            event_buffer,
            buffer,
            length,
            pool_ok,
        )),
{
    if endpoint < 2 || endpoint >= 8 || event_buffer == 0 || event_buffer > event_buffer_count
        || length == 0 {
        return false;
    }
    let ch = c.channels[(event_buffer - 1) as usize];
    ch.endpoint == endpoint && ch.ready && !ch.pending && buffer == ch.buffer_base && length
        == ch.buffer_length && pool_ok
}

/// The started request: pending on its slot with the returned resource.
pub fn gsi_request_started(c: &mut GsiChannels, index: usize, slot: usize, resource_index: u8)
    requires
        old(c).wf(),
        index < 3,
    ensures
        final(c).wf(),
        final(c).channels@ == old(c).channels@.update(
            index as int,
            GsiChannel {
                pending: true,
                request_slot: Some(slot),
                resource_index,
                ..old(c).channels@[index as int]
            },
        ),
{
    let ch = c.channels[index];
    c.channels.set(index, GsiChannel { pending: true, request_slot: Some(slot), resource_index, ..ch });
}

/// What a GSI event completes: the request (address, slot) with its byte
/// count and error flag, when one was outstanding.
#[derive(Clone, Copy, PartialEq, Eq, Debug)]
pub struct GsiCompletion {
    pub address: u8,
    pub slot: usize,
    pub actual: u32,
    pub error: bool,
}

/// Handle one event word of channel `index`: the outstanding request
/// completes with the length less the buffer TRB's residual count and the
/// event's status; either way the channel's request is over.
pub fn gsi_event(c: &mut GsiChannels, index: usize, raw: u32, request_length: Option<u32>, trb_size: u32) -> (r:
    Option<GsiCompletion>)
    requires
        old(c).wf(),
        index < 3,
    ensures
        final(c).wf(),
        r == match (old(c).channels@[index as int].request_slot, request_length) {
            (Some(slot), Some(length)) => Some(
                GsiCompletion {
                    address: gsi_address(old(c).channels@[index as int].endpoint),
                    slot,
                    actual: crate::endpoint::spec_actual(length, trb_size),
                    error: (raw >> 12u32) & 0xf != 0,
                },
            ),
            _ => None::<GsiCompletion>,
        },
        final(c).channels@ == old(c).channels@.update(
            index as int,
            GsiChannel {
                pending: false,
                request_slot: None,
                ring_active: false,
                ..old(c).channels@[index as int]
            },
        ),
{
    let ch = c.channels[index];
    let r = match (ch.request_slot, request_length) {
        (Some(slot), Some(length)) => {
            let residual = trb_size & 0x00ff_ffff;
            let actual = if length >= residual {
                length - residual
            } else {
                0
            };
            Some(
                GsiCompletion {
                    address: gsi_address_exec(ch.endpoint),
                    slot,
                    actual,
                    error: (raw >> 12) & 0xf != 0,
                },
            )
        },
        _ => None,
    };
    c.channels.set(index, GsiChannel { pending: false, request_slot: None, ring_active: false, ..ch });
    r
}

} // verus!
