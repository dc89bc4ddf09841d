//! Keeping endpoint 0 answerable: arming the SETUP transfer with a
//! cooldown after a failed Start Transfer, recovering from a failed control
//! transfer, and the rescue of a stalled first descriptor request.

use vstd::prelude::*;
use crate::ep0::{ControlState, Ep0Stage};
use crate::mmio::DSTS_DEVCTRLHLT;

verus! {

/// Polls to wait after a Start Transfer of the SETUP TRB failed.
pub const ARM_COOLDOWN_POLLS: u32 = 200;

/// The first part of arming the SETUP transfer.
#[derive(Clone, Copy, PartialEq, Eq, Debug)]
pub enum ArmStart {
    /// Nothing to do: the answer is whether a SETUP is armed.
    Settled { armed: bool },
    /// A previous failure's cooldown is still running.
    CoolingDown,
    /// The controller is halted; try again later.
    Halted,
    /// Prepare the SETUP TRB and issue Start Transfer.
    Start,
}

/// Whether arming is settled without work: a SETUP is already armed, the
/// endpoints are not configured, or a control transfer is in progress.
pub open spec fn arm_settled(s: ControlState) -> bool {
    s.setup_armed || !s.endpoints_ready || s.stage != Ep0Stage::Setup
}

/// Decide whether to issue Start Transfer for the SETUP TRB now. With
/// `halt_gated`, a halted controller (DSTS.DEVCTRLHLT) is skipped.
pub fn arm_setup_begin(s: &ControlState, cooldown: &mut u32, dsts: u32, halt_gated: bool) -> (r:
    ArmStart)
    ensures
        r == if arm_settled(*s) {
            ArmStart::Settled { armed: s.setup_armed }
        } else if *old(cooldown) != 0 {
            ArmStart::CoolingDown
        } else if halt_gated && dsts & DSTS_DEVCTRLHLT != 0 {
            ArmStart::Halted
        } else {
            ArmStart::Start
        },
        *final(cooldown) == if !arm_settled(*s) && *old(cooldown) != 0 {
            (*old(cooldown) - 1) as u32
        } else {
            *old(cooldown)
        },
{
    if s.setup_armed || !s.endpoints_ready || s.stage != Ep0Stage::Setup {
        return ArmStart::Settled { armed: s.setup_armed };
    }
    if *cooldown != 0 {
        *cooldown = *cooldown - 1;
        return ArmStart::CoolingDown;
    }
    if halt_gated && dsts & DSTS_DEVCTRLHLT != 0 {
        return ArmStart::Halted;
    }
    ArmStart::Start
}

/// Record the Start Transfer's outcome: the SETUP is armed, or the cooldown
/// starts. Returns whether the SETUP is armed.
pub fn arm_setup_finish(s: &mut ControlState, cooldown: &mut u32, started: bool) -> (armed: bool)
    ensures
        armed == started,
        started ==> *final(s) == (ControlState {
            setup_armed: true,
            pending_setup_arm: false,
            ..*old(s)
        }) && *final(cooldown) == *old(cooldown),
        !started ==> *final(s) == *old(s) && *final(cooldown) == ARM_COOLDOWN_POLLS,
{
    if started {
        s.setup_armed = true;
        s.pending_setup_arm = false;
        true
    } else {
        *cooldown = ARM_COOLDOWN_POLLS;
        false
    }
}

/// What recovering from a failed control transfer asks of the controller.
#[derive(Clone, Copy, PartialEq, Eq, Debug)]
pub struct ControlRecovery {
    /// End the transfer holding the endpoint's resource.
    pub end_transfer: bool,
    /// Re-arm the SETUP transfer.
    pub rearm_setup: bool,
}

/// The resource index EP0 direction `endpoint` holds.
pub open spec fn ep0_resource(s: ControlState, endpoint: usize) -> u32 {
    if endpoint == 0 {
        s.resource_out
    } else {
        s.resource_in
    }
}

/// Recover from a failed control transfer on `endpoint`: its resource is
/// released, the transfer is forgotten and a new SETUP is awaited.
pub fn on_control_error(s: &mut ControlState, endpoint: usize) -> (r: ControlRecovery)
    ensures
        r == (ControlRecovery {
            end_transfer: endpoint < 2 && ep0_resource(*old(s), endpoint) != 0,
            rearm_setup: old(s).endpoints_ready,
        }),
        *final(s) == (ControlState {
            stage: Ep0Stage::Setup,
            control_in: false,
            control_has_data: false,
            resource_out: if endpoint == 0 {
                0
            } else {
                old(s).resource_out
            },
            resource_in: if endpoint == 1 {
                0
            } else {
                old(s).resource_in
            },
            ..*old(s)
        }),
{
    let mut end = false;
    if endpoint == 0 && s.resource_out != 0 {
        end = true;
        s.resource_out = 0;
    } else if endpoint == 1 && s.resource_in != 0 {
        end = true;
        s.resource_in = 0;
    }
    s.stage = Ep0Stage::Setup;
    s.control_in = false;
    s.control_has_data = false;
    ControlRecovery { end_transfer: end, rearm_setup: s.endpoints_ready }
}

/// What the rescue of a stalled 64-byte GET_DESCRIPTOR does.
#[derive(Clone, Copy, PartialEq, Eq, Debug)]
pub enum RescueAction {
    /// The last SETUP was not that request, or the link is not on.
    NotApplicable,
    /// A SETUP packet is latched in the buffer: handle it now.
    HandleLatchedSetup,
    /// Re-arm the SETUP transfer.
    RearmSetup,
    /// Restart the IN data stage.
    RestartDataIn,
    /// Restart the status stage on `endpoint`.
    RestartStatus { endpoint: u32 },
}

/// The rescue's report code.
pub open spec fn rescue_code(a: RescueAction) -> u32 {
    match a {
        RescueAction::NotApplicable => 0,
        RescueAction::HandleLatchedSetup => 1,
        RescueAction::RearmSetup => 2,
        RescueAction::RestartDataIn => 3,
        RescueAction::RestartStatus { .. } => 4,
    }
}

/// Whether the harvested last SETUP was a 64-byte GET_DESCRIPTOR (request 6
/// in the high half, length 64 in the low half).
pub open spec fn stalled_descriptor_request(last_setup: u32) -> bool {
    last_setup != 0xffff_ffffu32 && last_setup >> 16u32 == 6 && last_setup & 0xffff == 64
}

/// The rescue of a stalled first descriptor request, from the harvested
/// last SETUP, DSTS, and whether the SETUP buffer holds a packet.
pub open spec fn spec_rescue(last_setup: u32, dsts: u32, latched: bool, s: ControlState) -> RescueAction {
    if !stalled_descriptor_request(last_setup) || dsts & DSTS_DEVCTRLHLT != 0 || (dsts >> 18u32)
        & 0xf != 0 {
        RescueAction::NotApplicable
    } else if latched {
        RescueAction::HandleLatchedSetup
    } else {
        match s.stage {
            Ep0Stage::Setup => RescueAction::RearmSetup,
            Ep0Stage::Data => RescueAction::RestartDataIn,
            Ep0Stage::Status => RescueAction::RestartStatus {
                endpoint: if s.control_has_data && s.control_in {
                    0
                } else {
                    1
                },
            },
        }
    }
}

/// Decide the rescue; a latched SETUP overrides any stale stage. Returns the
/// report code with the action.
pub fn rescue_read64(s: &mut ControlState, last_setup: u32, dsts: u32, latched: bool) -> (r: (
    u32,
    RescueAction,
))
    ensures
        r.1 == spec_rescue(last_setup, dsts, latched, *old(s)),
        r.0 == rescue_code(r.1),
        *final(s) == if r.1 == RescueAction::HandleLatchedSetup {
            ControlState { stage: Ep0Stage::Setup, ..*old(s) }
        } else {
            *old(s)
        },
{
    if last_setup == u32::MAX || (last_setup >> 16) != 6 || (last_setup & 0xffff) != 64 {
        return (0, RescueAction::NotApplicable);
    }
    if dsts & DSTS_DEVCTRLHLT != 0 || (dsts >> 18) & 0xf != 0 {
        return (0, RescueAction::NotApplicable);
    }
    if latched {
        s.stage = Ep0Stage::Setup;
        return (1, RescueAction::HandleLatchedSetup);
    }
    match s.stage {
        Ep0Stage::Setup => (2, RescueAction::RearmSetup),
        Ep0Stage::Data => (3, RescueAction::RestartDataIn),
        Ep0Stage::Status => {
            let endpoint: u32 = if s.control_has_data && s.control_in {
                0
            } else {
                1
            };
            (4, RescueAction::RestartStatus { endpoint })
        },
    }
}

} // verus!
