//! The control-endpoint lifecycle across device events: what a disconnect,
//! a bus reset, Connect Done and each EP0 transfer completion do to the
//! driver's control state, and which controller work each one asks for.
//! The caller performs that work (endpoint commands, register writes) and
//! reports back where an outcome matters.

use vstd::prelude::*;
use crate::bytes::{get_le16, read_le16};
use crate::endpoint::BulkSlots;
use crate::mmio::{
    DCFG_DEVADDR_MASK, DCFG_HIGHSPEED, DCFG_SPEED_MASK, DCFG_SUPERSPEED,
    DEVICE_EVENT_CMD_COMPLETE, DEVICE_EVENT_CONNECT_DONE, DEVICE_EVENT_DISCONNECT,
    DEVICE_EVENT_ERRATIC_ERROR, DEVICE_EVENT_HIBERNATION_REQUEST, DEVICE_EVENT_LINK_STATUS_CHANGE,
    DEVICE_EVENT_OVERFLOW, DEVICE_EVENT_RESET, DEVICE_EVENT_SUSPEND, DEVICE_EVENT_WAKEUP,
    DSTS_CONNECTSPD_MASK, DSTS_SUPERSPEED,
};

verus! {

/// The stage of the control transfer on endpoint 0.
#[derive(Clone, Copy, PartialEq, Eq, Structural, Debug)]
pub enum Ep0Stage {
    Setup,
    Data,
    Status,
}

/// The driver's control-endpoint state.
#[derive(Clone, Copy, PartialEq, Eq, Debug)]
pub struct ControlState {
    pub stage: Ep0Stage,
    /// A SETUP transfer is armed on endpoint 0.
    pub setup_armed: bool,
    /// Both EP0 contexts are configured.
    pub endpoints_ready: bool,
    /// The host selected a configuration.
    pub configured: bool,
    pub data_endpoints_ready: bool,
    pub function_bound: bool,
    /// The current control transfer reads from the device.
    pub control_in: bool,
    pub control_has_data: bool,
    /// The SETUP transfer must be armed at the next opportunity.
    pub pending_setup_arm: bool,
    /// Transfer resource indices of EP0 OUT and IN (0 = none).
    pub resource_out: u32,
    pub resource_in: u32,
}

impl ControlState {
    /// The state before the controller is started.
    pub open spec fn spec_initial() -> ControlState {
        ControlState {
            stage: Ep0Stage::Setup,
            setup_armed: false,
            endpoints_ready: false,
            configured: false,
            data_endpoints_ready: false,
            function_bound: false,
            control_in: false,
            control_has_data: false,
            pending_setup_arm: false,
            resource_out: 0,
            resource_in: 0,
        }
    }

    /// The state before the controller is started.
    pub fn initial() -> (s: ControlState)
        ensures
            s == ControlState::spec_initial(),
    {
        ControlState {
            stage: Ep0Stage::Setup,
            setup_armed: false,
            endpoints_ready: false,
            configured: false,
            data_endpoints_ready: false,
            function_bound: false,
            control_in: false,
            control_has_data: false,
            pending_setup_arm: false,
            resource_out: 0,
            resource_in: 0,
        }
    }
}

/// How a device event is handled.
#[derive(Clone, Copy, PartialEq, Eq, Debug)]
pub enum DeviceReaction {
    Disconnect,
    BusReset,
    ConnectDone,
    /// Recorded only.
    LinkStatus,
    /// Resume work is queued.
    Wakeup,
    /// Recorded only once the gadget is configured; ignored before.
    Suspend { record: bool },
    /// Recorded; not a system suspend request.
    Hibernation,
    /// A device error is latched and recorded.
    DeviceError,
    Ignore,
}

/// The handling of a device event of type `kind`.
pub open spec fn spec_device_reaction(kind: u32, configured: bool) -> DeviceReaction {
    if kind == DEVICE_EVENT_DISCONNECT {
        DeviceReaction::Disconnect
    } else if kind == DEVICE_EVENT_RESET {
        DeviceReaction::BusReset
    } else if kind == DEVICE_EVENT_CONNECT_DONE {
        DeviceReaction::ConnectDone
    } else if kind == DEVICE_EVENT_LINK_STATUS_CHANGE {
        DeviceReaction::LinkStatus
    } else if kind == DEVICE_EVENT_WAKEUP {
        DeviceReaction::Wakeup
    } else if kind == DEVICE_EVENT_SUSPEND {
        DeviceReaction::Suspend { record: configured }
    } else if kind == DEVICE_EVENT_HIBERNATION_REQUEST {
        DeviceReaction::Hibernation
    } else if kind == DEVICE_EVENT_ERRATIC_ERROR || kind == DEVICE_EVENT_CMD_COMPLETE || kind
        == DEVICE_EVENT_OVERFLOW {
        DeviceReaction::DeviceError
    } else {
        DeviceReaction::Ignore
    }
}

/// Classify a device event.
pub fn device_reaction(kind: u32, configured: bool) -> (r: DeviceReaction)
    ensures
        r == spec_device_reaction(kind, configured),
{
    if kind == DEVICE_EVENT_DISCONNECT {
        DeviceReaction::Disconnect
    } else if kind == DEVICE_EVENT_RESET {
        DeviceReaction::BusReset
    } else if kind == DEVICE_EVENT_CONNECT_DONE {
        DeviceReaction::ConnectDone
    } else if kind == DEVICE_EVENT_LINK_STATUS_CHANGE {
        DeviceReaction::LinkStatus
    } else if kind == DEVICE_EVENT_WAKEUP {
        DeviceReaction::Wakeup
    } else if kind == DEVICE_EVENT_SUSPEND {
        DeviceReaction::Suspend { record: configured }
    } else if kind == DEVICE_EVENT_HIBERNATION_REQUEST {
        DeviceReaction::Hibernation
    } else if kind == DEVICE_EVENT_ERRATIC_ERROR || kind == DEVICE_EVENT_CMD_COMPLETE || kind
        == DEVICE_EVENT_OVERFLOW {
        DeviceReaction::DeviceError
    } else {
        DeviceReaction::Ignore
    }
}

/// The data (bulk) endpoints' transfer state: the resource index each
/// endpoint's transfer holds (0 = none) and its outstanding requests.
#[derive(Clone, Copy, PartialEq, Eq, Debug)]
pub struct DataEndpoints {
    /// Resource of the bulk OUT endpoint (physical 2).
    pub resource_out: u32,
    /// Resource of the bulk IN endpoint (physical 3).
    pub resource_in: u32,
    pub slots: BulkSlots,
}

/// Data endpoints holding no transfer and no request.
pub open spec fn spec_idle_data_endpoints() -> DataEndpoints {
    DataEndpoints { resource_out: 0, resource_in: 0, slots: BulkSlots { out_slot: None, in_slot: None } }
}

/// What a disconnect asks of the controller and the gadget.
#[derive(Clone, Copy, PartialEq, Eq, Debug)]
pub struct DisconnectPlan {
    /// End the EP0 OUT / IN transfers that hold a resource.
    pub end_out: bool,
    pub end_in: bool,
    /// Unbind the gadget function that SET_CONFIGURATION bound.
    pub unbind_function: bool,
    /// Tear the data endpoints down (they were configured): end the
    /// transfers marked below, clear their DALEPENA bits and disable them
    /// at the UDC.
    pub teardown_data: bool,
    pub end_data_out: bool,
    pub end_data_in: bool,
    /// The value DALEPENA is written with afterwards: no endpoint enabled.
    pub dalepena: u32,
}

/// A disconnect invalidates the control transfer, the configuration and the
/// address: every EP0 transfer holding a resource is ended, the function is
/// unbound, configured data endpoints are torn down, all endpoints are
/// disabled, and the state returns to that of a controller waiting for
/// Connect Done (nothing is re-armed before it).
pub fn on_disconnect(s: &mut ControlState, data: &mut DataEndpoints) -> (p: DisconnectPlan)
    ensures
        p == (DisconnectPlan {
            end_out: old(s).resource_out != 0,
            end_in: old(s).resource_in != 0,
            unbind_function: old(s).function_bound,
            teardown_data: old(s).data_endpoints_ready,
            end_data_out: old(s).data_endpoints_ready && old(data).resource_out != 0,
            end_data_in: old(s).data_endpoints_ready && old(data).resource_in != 0,
            dalepena: 0,
        }),
        *final(s) == (ControlState { pending_setup_arm: old(s).pending_setup_arm, ..ControlState::spec_initial() }),
        *final(data) == spec_idle_data_endpoints(),
{
    let p = DisconnectPlan {
        end_out: s.resource_out != 0,
        end_in: s.resource_in != 0,
        unbind_function: s.function_bound,
        teardown_data: s.data_endpoints_ready,
        end_data_out: s.data_endpoints_ready && data.resource_out != 0,
        end_data_in: s.data_endpoints_ready && data.resource_in != 0,
        dalepena: 0,
    };
    let pending = s.pending_setup_arm;
    *s = ControlState::initial();
    s.pending_setup_arm = pending;
    *data = DataEndpoints { resource_out: 0, resource_in: 0, slots: BulkSlots { out_slot: None, in_slot: None } };
    p
}

/// What a bus reset asks of the controller.
#[derive(Clone, Copy, PartialEq, Eq, Debug)]
pub enum ResetPlan {
    /// EP0 sits in Setup with its SETUP transfer armed: keep the transfer,
    /// endpoints and speed; only clear the device address.
    Keep { dcfg: u32 },
    /// Clear the address and program the connected speed; configure both
    /// EP0 contexts for `max_packet` when they are not ready.
    Rebuild { dcfg: u32, max_packet: u32, configure_endpoints: bool },
}

/// DCFG with the device address cleared and, for a rebuild, the speed set
/// to SuperSpeed or high speed after the connected speed.
pub open spec fn reset_dcfg(dcfg: u32, dsts: u32, keep: bool) -> u32 {
    let cleared = dcfg & !DCFG_DEVADDR_MASK;
    if keep {
        cleared
    } else {
        (cleared & !DCFG_SPEED_MASK) | if dsts & DSTS_CONNECTSPD_MASK == DSTS_SUPERSPEED {
            DCFG_SUPERSPEED
        } else {
            DCFG_HIGHSPEED
        }
    }
}

/// Whether a bus reset keeps the armed SETUP transfer.
pub open spec fn reset_keeps_setup(s: ControlState) -> bool {
    s.stage == Ep0Stage::Setup && s.setup_armed && s.endpoints_ready
}

/// The control state after a bus reset.
pub open spec fn spec_after_reset(s: ControlState) -> ControlState {
    let cleared = ControlState {
        configured: false,
        data_endpoints_ready: false,
        function_bound: false,
        control_in: false,
        control_has_data: false,
        ..s
    };
    if reset_keeps_setup(s) {
        cleared
    } else {
        ControlState {
            stage: Ep0Stage::Setup,
            setup_armed: false,
            pending_setup_arm: true,
            resource_out: 0,
            resource_in: 0,
            ..cleared
        }
    }
}

/// Handle a bus reset, given DCFG and DSTS as read now.
pub fn on_bus_reset(s: &mut ControlState, dcfg: u32, dsts: u32) -> (p: ResetPlan)
    ensures
        *final(s) == spec_after_reset(*old(s)),
        p == if reset_keeps_setup(*old(s)) {
            ResetPlan::Keep { dcfg: reset_dcfg(dcfg, dsts, true) }
        } else {
            ResetPlan::Rebuild {
                dcfg: reset_dcfg(dcfg, dsts, false),
                max_packet: if dsts & DSTS_CONNECTSPD_MASK == DSTS_SUPERSPEED {
                    512u32
                } else {
                    64u32
                },
                configure_endpoints: !old(s).endpoints_ready,
            }
        },
{
    let keep = s.stage == Ep0Stage::Setup && s.setup_armed && s.endpoints_ready;
    s.configured = false;
    s.data_endpoints_ready = false;
    s.function_bound = false;
    s.control_in = false;
    s.control_has_data = false;
    let cleared = dcfg & !DCFG_DEVADDR_MASK;
    if keep {
        return ResetPlan::Keep { dcfg: cleared };
    }
    s.stage = Ep0Stage::Setup;
    s.setup_armed = false;
    s.pending_setup_arm = true;
    s.resource_out = 0;
    s.resource_in = 0;
    let super_speed = dsts & DSTS_CONNECTSPD_MASK == DSTS_SUPERSPEED;
    let speed = if super_speed {
        DCFG_SUPERSPEED
    } else {
        DCFG_HIGHSPEED
    };
    ResetPlan::Rebuild {
        dcfg: (cleared & !DCFG_SPEED_MASK) | speed,
        max_packet: if super_speed {
            512
        } else {
            64
        },
        configure_endpoints: !s.endpoints_ready,
    }
}

/// Record whether configuring the EP0 contexts succeeded.
pub fn note_endpoints_configured(s: &mut ControlState, ok: bool)
    ensures
        *final(s) == (ControlState { endpoints_ready: ok, ..*old(s) }),
{
    s.endpoints_ready = ok;
}

/// What Connect Done asks of the controller.
#[derive(Clone, Copy, PartialEq, Eq, Debug)]
pub enum ConnectDonePlan {
    /// A post-reset Connect Done with the SETUP transfer armed: only
    /// MODIFY both EP0 contexts for the negotiated packet size.
    Modify { max_packet: u32 },
    /// Configure both EP0 contexts (as a MODIFY after an earlier connect),
    /// then enable them and arm SETUP.
    Configure { max_packet: u32, modify: bool },
}

/// The Connect Done plan for the connected speed `speed` (DSTS.CONNECTSPD).
pub open spec fn spec_connect_done_plan(s: ControlState, speed: u32) -> ConnectDonePlan {
    let max_packet: u32 = if speed == DSTS_SUPERSPEED {
        512
    } else {
        64
    };
    let first_connect = !s.endpoints_ready;
    if !first_connect && s.stage == Ep0Stage::Setup && s.setup_armed {
        ConnectDonePlan::Modify { max_packet }
    } else {
        ConnectDonePlan::Configure { max_packet, modify: !first_connect }
    }
}

/// Handle Connect Done: a SETUP arm becomes pending.
pub fn on_connect_done(s: &mut ControlState, speed: u32) -> (p: ConnectDonePlan)
    ensures
        p == spec_connect_done_plan(*old(s), speed),
        *final(s) == (ControlState { pending_setup_arm: true, ..*old(s) }),
{
    s.pending_setup_arm = true;
    let max_packet: u32 = if speed == DSTS_SUPERSPEED {
        512
    } else {
        64
    };
    let first_connect = !s.endpoints_ready;
    if !first_connect && s.stage == Ep0Stage::Setup && s.setup_armed {
        ConnectDonePlan::Modify { max_packet }
    } else {
        ConnectDonePlan::Configure { max_packet, modify: !first_connect }
    }
}

/// Where an endpoint transfer completion goes.
#[derive(Clone, Copy, PartialEq, Eq, Debug)]
pub enum CompletionRoute {
    /// A bulk endpoint's completion.
    Bulk,
    /// A SETUP packet is waiting: handle it.
    Setup,
    /// The data stage finished: ask the gadget for the status stage.
    DataDone,
    /// The status stage finished: ask the gadget what comes next.
    StatusDone,
    /// Nothing to do.
    Ignore,
}

/// The route of a XferComplete on `endpoint`; `fresh_setup` says whether
/// the SETUP buffer holds a new packet.
pub open spec fn spec_completion_route(s: ControlState, endpoint: u32, fresh_setup: bool) -> CompletionRoute {
    if endpoint >= 2 {
        CompletionRoute::Bulk
    } else if fresh_setup {
        CompletionRoute::Setup
    } else {
        match s.stage {
            Ep0Stage::Setup => CompletionRoute::Setup,
            Ep0Stage::Data => CompletionRoute::DataDone,
            Ep0Stage::Status => CompletionRoute::StatusDone,
        }
    }
}

/// The control state after a XferComplete on EP0: its resource and the
/// SETUP arm are consumed; a fresh SETUP packet overrides any stage.
pub open spec fn spec_after_completion(s: ControlState, endpoint: u32, fresh_setup: bool) -> ControlState {
    if endpoint >= 2 {
        s
    } else {
        let consumed = ControlState {
            resource_out: if endpoint == 0 {
                0
            } else {
                s.resource_out
            },
            resource_in: if endpoint == 1 {
                0
            } else {
                s.resource_in
            },
            setup_armed: false,
            ..s
        };
        if fresh_setup {
            ControlState { stage: Ep0Stage::Setup, ..consumed }
        } else {
            consumed
        }
    }
}

/// Route an endpoint transfer completion.
pub fn on_transfer_complete(s: &mut ControlState, endpoint: u32, fresh_setup: bool) -> (r:
    CompletionRoute)
    ensures
        r == spec_completion_route(*old(s), endpoint, fresh_setup),
        *final(s) == spec_after_completion(*old(s), endpoint, fresh_setup),
{
    if endpoint >= 2 {
        return CompletionRoute::Bulk;
    }
    if endpoint == 0 {
        s.resource_out = 0;
    } else {
        s.resource_in = 0;
    }
    s.setup_armed = false;
    if fresh_setup {
        s.stage = Ep0Stage::Setup;
        return CompletionRoute::Setup;
    }
    match s.stage {
        Ep0Stage::Setup => CompletionRoute::Setup,
        Ep0Stage::Data => CompletionRoute::DataDone,
        Ep0Stage::Status => CompletionRoute::StatusDone,
    }
}

/// What the gadget driver answers at the end of a control stage.
#[derive(Clone, Copy, PartialEq, Eq, Debug)]
pub enum GadgetAnswer {
    StatusOut,
    StatusIn,
    Setup,
    SetHalt { address: u8 },
    ClearHalt { address: u8 },
    Other,
}

/// The controller work at the end of a control stage.
#[derive(Clone, Copy, PartialEq, Eq, Debug)]
pub enum StageWork {
    /// Start the status stage in direction `direction` (0 OUT, 1 IN).
    StartStatus { direction: u32 },
    /// Stall the control endpoint in direction `direction`.
    Stall { direction: u32 },
    /// Return to Setup and arm the next SETUP.
    Rearm,
    /// Set (or clear) the halt of `endpoint`, then rearm; stall on failure.
    Halt { endpoint: u32, set: bool },
    Nothing,
}

/// The stall direction of the current control transfer.
pub open spec fn stall_direction(s: ControlState) -> u32 {
    if s.control_in {
        1
    } else {
        0
    }
}

/// The work after the data stage: the status stage the gadget asks for,
/// or a stall.
pub open spec fn spec_after_data(s: ControlState, answer: GadgetAnswer) -> StageWork {
    match answer {
        GadgetAnswer::StatusOut => StageWork::StartStatus { direction: 0 },
        GadgetAnswer::StatusIn => StageWork::StartStatus { direction: 1 },
        _ => StageWork::Stall { direction: stall_direction(s) },
    }
}

/// The end of the data stage: EP0 enters the status stage.
pub fn finish_data_stage(s: &mut ControlState, answer: GadgetAnswer) -> (w: StageWork)
    ensures
        w == spec_after_data(*old(s), answer),
        *final(s) == (ControlState { stage: Ep0Stage::Status, ..*old(s) }),
{
    s.stage = Ep0Stage::Status;
    match answer {
        GadgetAnswer::StatusOut => StageWork::StartStatus { direction: 0 },
        GadgetAnswer::StatusIn => StageWork::StartStatus { direction: 1 },
        _ => StageWork::Stall {
            direction: if s.control_in {
                1
            } else {
                0
            },
        },
    }
}

/// The work after the status stage.
pub open spec fn spec_after_status(s: ControlState, answer: GadgetAnswer) -> StageWork {
    match answer {
        GadgetAnswer::Setup => StageWork::Rearm,
        GadgetAnswer::SetHalt { address } => StageWork::Halt {
            endpoint: (address & 0x7f) as u32,
            set: true,
        },
        GadgetAnswer::ClearHalt { address } => StageWork::Halt {
            endpoint: (address & 0x7f) as u32,
            set: false,
        },
        _ => StageWork::Stall { direction: stall_direction(s) },
    }
}

/// The end of the status stage: the next SETUP, or a halt change first.
pub fn finish_status_stage(s: &mut ControlState, answer: GadgetAnswer) -> (w: StageWork)
    ensures
        w == spec_after_status(*old(s), answer),
        *final(s) == if w == StageWork::Rearm {
            ControlState { stage: Ep0Stage::Setup, ..*old(s) }
        } else {
            *old(s)
        },
{
    match answer {
        GadgetAnswer::Setup => {
            s.stage = Ep0Stage::Setup;
            StageWork::Rearm
        },
        GadgetAnswer::SetHalt { address } => StageWork::Halt {
            endpoint: (address & 0x7f) as u32,
            set: true,
        },
        GadgetAnswer::ClearHalt { address } => StageWork::Halt {
            endpoint: (address & 0x7f) as u32,
            set: false,
        },
        _ => StageWork::Stall {
            direction: if s.control_in {
                1
            } else {
                0
            },
        },
    }
}

/// After a halt change: back to Setup when it took effect.
pub fn finish_halt(s: &mut ControlState, ok: bool) -> (w: StageWork)
    ensures
        w == if ok {
            StageWork::Rearm
        } else {
            StageWork::Stall { direction: stall_direction(*old(s)) }
        },
        *final(s) == if ok {
            ControlState { stage: Ep0Stage::Setup, ..*old(s) }
        } else {
            *old(s)
        },
{
    if ok {
        s.stage = Ep0Stage::Setup;
        StageWork::Rearm
    } else {
        StageWork::Stall {
            direction: if s.control_in {
                1
            } else {
                0
            },
        }
    }
}

/// A bus reset never drops a SETUP transfer that is armed on ready
/// endpoints, and leaves the controller in Setup either way.
pub proof fn lemma_reset_preserves_armed_setup(s: ControlState)
    ensures
        reset_keeps_setup(s) ==> spec_after_reset(s).setup_armed && spec_after_reset(s).resource_out
            == s.resource_out && spec_after_reset(s).resource_in == s.resource_in,
        spec_after_reset(s).stage == Ep0Stage::Setup,
        !spec_after_reset(s).configured,
{
}

/// After a disconnect, the next Connect Done configures the EP0 contexts
/// afresh (no MODIFY of a stale context) and nothing stays armed.
pub proof fn lemma_connect_after_disconnect_configures(s: ControlState, speed: u32)
    ensures
        ({
            let d = ControlState { pending_setup_arm: s.pending_setup_arm, ..ControlState::spec_initial() };
            &&& !d.setup_armed
            &&& spec_connect_done_plan(d, speed) == ConnectDonePlan::Configure {
                max_packet: if speed == DSTS_SUPERSPEED {
                    512u32
                } else {
                    64u32
                },
                modify: false,
            }
        }),
{
}

/// A SETUP packet's fields.
#[derive(Clone, Copy, PartialEq, Eq, Debug)]
pub struct SetupPacket {
    pub request_type: u8,
    pub request: u8,
    pub value: u16,
    pub index: u16,
    pub length: u16,
}

impl SetupPacket {
    /// The transfer's data stage reads from the device.
    pub open spec fn direction_in(self) -> bool {
        self.request_type & 0x80 != 0
    }

    /// The transfer has a data stage.
    pub open spec fn has_data(self) -> bool {
        self.length != 0
    }
}

/// The fields of the eight SETUP bytes (multi-byte fields little endian).
pub open spec fn spec_setup(p: Seq<u8>) -> SetupPacket {
    SetupPacket {
        request_type: p[0],
        request: p[1],
        value: read_le16(p, 2),
        index: read_le16(p, 4),
        length: read_le16(p, 6),
    }
}

/// Decode a SETUP packet.
pub fn parse_setup(p: &[u8]) -> (s: SetupPacket)
    requires
        p@.len() >= 8,
    ensures
        s == spec_setup(p@),
{
    SetupPacket {
        request_type: p[0],
        request: p[1],
        value: get_le16(p, 2),
        index: get_le16(p, 4),
        length: get_le16(p, 6),
    }
}

/// Whether the SETUP buffer holds a packet (any nonzero byte): the buffer
/// is cleared after each packet, so a nonzero byte is a new one.
pub open spec fn spec_fresh_setup(buffer: Seq<u8>) -> bool {
    exists|i: int| 0 <= i < buffer.len() && #[trigger] buffer[i] != 0
}

/// Whether the SETUP buffer holds a packet.
pub fn fresh_setup(buffer: &[u8]) -> (fresh: bool)
    ensures
        fresh == spec_fresh_setup(buffer@),
{
    let mut i: usize = 0;
    while i < buffer.len()
        invariant
            i <= buffer@.len(),
            forall|j: int| 0 <= j < i ==> buffer@[j] == 0,
        decreases buffer.len() - i,
    {
        if buffer[i] != 0 {
            return true;
        }
        i += 1;
    }
    false
}

/// The EP0 liveness probe: bit 0 when a SETUP transfer is armed, bit 1
/// when the SETUP buffer holds a packet.
pub fn armalive_probe(setup_armed: bool, buffer: &[u8]) -> (state: u32)
    ensures
        state == (if setup_armed {
            1u32
        } else {
            0u32
        }) | (if spec_fresh_setup(buffer@) {
            2u32
        } else {
            0u32
        }),
{
    let armed: u32 = if setup_armed {
        1
    } else {
        0
    };
    let fresh: u32 = if fresh_setup(buffer) {
        2
    } else {
        0
    };
    armed | fresh
}

/// The Connect Done to first SETUP delay in whole seconds, recorded once:
/// kept when already recorded (not 0xffff) or when there is no Connect Done
/// time or counter frequency; otherwise the elapsed seconds, capped at
/// 0xfffe.
pub open spec fn spec_setup_delay(recorded: u32, connect_tick: u64, counter: u64, frequency: u64) -> u32 {
    if recorded != 0xffff || connect_tick == 0 || frequency == 0 {
        recorded
    } else {
        let elapsed = if counter >= connect_tick {
            counter - connect_tick
        } else {
            0
        };
        let secs = elapsed / (frequency as int);
        if secs < 0xfffe {
            secs as u32
        } else {
            0xfffe
        }
    }
}

/// Record the first SETUP's delay after Connect Done.
pub fn setup_delay(recorded: u32, connect_tick: u64, counter: u64, frequency: u64) -> (delay: u32)
    ensures
        delay == spec_setup_delay(recorded, connect_tick, counter, frequency),
{
    if recorded != 0xffff || connect_tick == 0 || frequency == 0 {
        return recorded;
    }
    let elapsed = if counter >= connect_tick {
        counter - connect_tick
    } else {
        0
    };
    let secs = elapsed / frequency;
    if secs < 0xfffe {
        secs as u32
    } else {
        0xfffe
    }
}

/// What the gadget answers a SETUP with.
#[derive(Clone, Copy, PartialEq, Eq, Debug)]
pub enum SetupAnswer {
    /// Send `length` bytes of response in the data stage.
    DataIn { length: usize },
    /// No data stage: the status stage is IN.
    StatusIn,
    /// Refuse the request.
    Stall,
    /// An answer that makes no sense for a SETUP.
    Invalid,
}

/// The controller work a SETUP's answer asks for.
#[derive(Clone, Copy, PartialEq, Eq, Debug)]
pub enum SetupWork {
    /// Start the IN data stage with `length` bytes.
    StartData { length: usize },
    /// Wait for the status stage.
    AwaitStatus,
    /// Stall in the request's direction (0 OUT, 1 IN).
    Stall { direction: u32 },
}

/// Handle a SETUP packet once the gadget answered it: the transfer's
/// direction and data presence are recorded, and the stage advances.
pub fn on_setup(s: &mut ControlState, packet: SetupPacket, answer: SetupAnswer) -> (w: SetupWork)
    ensures
        w == match answer {
            SetupAnswer::DataIn { length } => SetupWork::StartData { length },
            SetupAnswer::StatusIn => SetupWork::AwaitStatus,
            _ => SetupWork::Stall {
                direction: if packet.direction_in() {
                    1
                } else {
                    0
                },
            },
        },
        *final(s) == (ControlState {
            control_in: packet.direction_in(),
            control_has_data: packet.has_data(),
            stage: match answer {
                SetupAnswer::DataIn { .. } => Ep0Stage::Data,
                SetupAnswer::StatusIn => Ep0Stage::Status,
                _ => old(s).stage,
            },
            ..*old(s)
        }),
{
    let direction_in = packet.request_type & 0x80 != 0;
    s.control_in = direction_in;
    s.control_has_data = packet.length != 0;
    match answer {
        SetupAnswer::DataIn { length } => {
            s.stage = Ep0Stage::Data;
            SetupWork::StartData { length }
        },
        SetupAnswer::StatusIn => {
            s.stage = Ep0Stage::Status;
            SetupWork::AwaitStatus
        },
        _ => SetupWork::Stall {
            direction: if direction_in {
                1
            } else {
                0
            },
        },
    }
}

/// What an XferNotReady event on EP0 asks for.
#[derive(Clone, Copy, PartialEq, Eq, Debug)]
pub enum NotReadyWork {
    /// Start the IN data stage of `length` bytes whose start was deferred;
    /// once it is queued, the deferral is cleared.
    StartDataIn { length: usize },
    /// Start the status stage on `endpoint`, stalling it if that fails.
    StartStatus { endpoint: u32 },
    Nothing,
}

/// The handling of XferNotReady on `endpoint` with event status `status`
/// (1 = the data stage, 2 = the status stage is wanted), given the IN data
/// stage whose start is pending, if any.
pub open spec fn spec_not_ready(s: ControlState, endpoint: u32, status: u32, pending_data: Option<usize>) -> NotReadyWork {
    if status == 1 && endpoint == 1 && s.stage == Ep0Stage::Data && pending_data is Some {
        NotReadyWork::StartDataIn { length: pending_data->0 }
    } else if status == 2 && s.stage == Ep0Stage::Status {
        NotReadyWork::StartStatus { endpoint: status_endpoint(s) }
    } else {
        NotReadyWork::Nothing
    }
}

/// The physical endpoint of the status stage: after an IN data stage the
/// status runs OUT (physical 0), otherwise IN (physical 1).
pub open spec fn status_endpoint(s: ControlState) -> u32 {
    if s.control_has_data && s.control_in {
        0
    } else {
        1
    }
}

/// In the status phase a status-stage XferNotReady starts the status stage
/// against the direction of the data stage: OUT (physical 0) only after an
/// IN data stage; a control OUT transfer, with or without a data stage, and
/// a control IN transfer without one get their status on IN (physical 1).
pub proof fn lemma_status_stage_direction(s: ControlState, endpoint: u32, pending_data: Option<usize>)
    requires
        s.stage == Ep0Stage::Status,
    ensures
        s.control_has_data && s.control_in ==> spec_not_ready(s, endpoint, 2, pending_data)
            == (NotReadyWork::StartStatus { endpoint: 0 }),
        s.control_has_data && !s.control_in ==> spec_not_ready(s, endpoint, 2, pending_data)
            == (NotReadyWork::StartStatus { endpoint: 1 }),
        !s.control_has_data ==> spec_not_ready(s, endpoint, 2, pending_data)
            == (NotReadyWork::StartStatus { endpoint: 1 }),
{
}

/// Handle XferNotReady on EP0.
pub fn on_xfer_not_ready(s: &ControlState, endpoint: u32, status: u32, pending_data: Option<usize>) -> (w: NotReadyWork)
    ensures
        w == spec_not_ready(*s, endpoint, status, pending_data),
{
    if status == 1 && endpoint == 1 && s.stage == Ep0Stage::Data {
        if let Some(length) = pending_data {
            return NotReadyWork::StartDataIn { length };
        }
    }
    if status == 2 && s.stage == Ep0Stage::Status {
        let endpoint: u32 = if s.control_has_data && s.control_in {
            0
        } else {
            1
        };
        return NotReadyWork::StartStatus { endpoint };
    }
    NotReadyWork::Nothing
}

} // verus!
