//! Runtime power management and Type-C role decisions: the glue's power
//! events, the GSI doorbell block around suspend, the USB2 suspend request,
//! and what each Type-C role event does to the gadget.

use vstd::prelude::*;
use crate::mmio::{
    GSI_BLOCK_WR_GO, GSI_WR_CTRL_STATE, GUSB2PHYCFG_ENBLSLPM, GUSB2PHYCFG_SUSPHY,
    PWR_EVENT_LPM_IN_L2, PWR_EVENT_LPM_OUT_L1, PWR_EVENT_LPM_OUT_L2, PWR_EVENT_POWERDOWN_IN_P3,
    PWR_EVENT_POWERDOWN_OUT_P3,
};
use crate::usb::{p3_state_after, power_event_clear_mask, power_event_requests_resume};

verus! {

/// The power-event mask with the events the driver consumes enabled (P3
/// entry and exit, L1 exit).
pub fn power_event_mask(current: u32) -> (mask: u32)
    ensures
        mask == current | PWR_EVENT_POWERDOWN_IN_P3 | PWR_EVENT_POWERDOWN_OUT_P3
            | PWR_EVENT_LPM_OUT_L1,
{
    current | PWR_EVENT_POWERDOWN_IN_P3 | PWR_EVENT_POWERDOWN_OUT_P3 | PWR_EVENT_LPM_OUT_L1
}

/// What servicing a power-event status does.
#[derive(Clone, Copy, PartialEq, Eq, Debug)]
pub struct PowerEventWork {
    /// The P3 state afterwards.
    pub in_p3: bool,
    /// L2 bits to record.
    pub l2_bits: u32,
    /// A controller resume is requested.
    pub resume: bool,
    /// The bits to write back (W1C), if any.
    pub clear: Option<u32>,
}

/// Service a power-event status: nothing for an empty or unreadable status.
pub fn service_power_event(status: u32, in_p3: bool) -> (w: Option<PowerEventWork>)
    ensures
        w == if status == 0 || status == 0xffff_ffffu32 {
            None::<PowerEventWork>
        } else {
            let clear = status & (PWR_EVENT_POWERDOWN_IN_P3 | PWR_EVENT_POWERDOWN_OUT_P3
                | PWR_EVENT_LPM_OUT_L1);
            Some(
                PowerEventWork {
                    in_p3: {
                        let p3_in = status & PWR_EVENT_POWERDOWN_IN_P3 != 0;
                        let p3_out = status & PWR_EVENT_POWERDOWN_OUT_P3 != 0;
                        if p3_in && !p3_out {
                            true
                        } else if p3_out && !p3_in {
                            false
                        } else {
                            in_p3
                        }
                    },
                    l2_bits: status & (PWR_EVENT_LPM_IN_L2 | PWR_EVENT_LPM_OUT_L2),
                    resume: status & PWR_EVENT_LPM_OUT_L1 != 0,
                    clear: if clear != 0 {
                        Some(clear)
                    } else {
                        None
                    },
                },
            )
        },
{
    if status == 0 || status == u32::MAX {
        return None;
    }
    let clear = power_event_clear_mask(status);
    Some(
        PowerEventWork {
            in_p3: p3_state_after(in_p3, status),
            l2_bits: status & (PWR_EVENT_LPM_IN_L2 | PWR_EVENT_LPM_OUT_L2),
            resume: power_event_requests_resume(status),
            clear: if clear != 0 {
                Some(clear)
            } else {
                None
            },
        },
    )
}

/// The GSI general configuration with the write doorbell blocked or
/// released, and whether a readback shows the requested state.
pub fn doorbell_block_value(current: u32, blocked: bool) -> (value: u32)
    ensures
        value == if blocked {
            current | GSI_BLOCK_WR_GO
        } else {
            current & !GSI_BLOCK_WR_GO
        },
{
    if blocked {
        current | GSI_BLOCK_WR_GO
    } else {
        current & !GSI_BLOCK_WR_GO
    }
}

/// Whether a readback shows the doorbell in the requested state.
pub fn doorbell_block_confirmed(readback: u32, blocked: bool) -> (ok: bool)
    ensures
        ok == ((readback & GSI_BLOCK_WR_GO != 0) == blocked),
{
    (readback & GSI_BLOCK_WR_GO != 0) == blocked
}

/// Whether the GSI interface is idle enough to suspend.
pub fn gsi_idle(interface_status: u32) -> (idle: bool)
    ensures
        idle == (interface_status & GSI_WR_CTRL_STATE == 0),
{
    interface_status & GSI_WR_CTRL_STATE == 0
}

/// GUSB2PHYCFG asking the USB2 PHY to suspend (low-power and suspend
/// enabled), and as restored at resume (both cleared).
pub fn usb2_suspend_values(usb2: u32) -> (r: (u32, u32))
    ensures
        r == (usb2 | GUSB2PHYCFG_ENBLSLPM | GUSB2PHYCFG_SUSPHY, usb2 & !(GUSB2PHYCFG_SUSPHY
            | GUSB2PHYCFG_ENBLSLPM)),
{
    (usb2 | GUSB2PHYCFG_ENBLSLPM | GUSB2PHYCFG_SUSPHY, usb2 & !(GUSB2PHYCFG_SUSPHY
        | GUSB2PHYCFG_ENBLSLPM))
}

/// Whether the PHY reported entering L2.
pub fn entered_l2(status: u32) -> (entered: bool)
    ensures
        entered == (status & PWR_EVENT_LPM_IN_L2 != 0),
{
    status & PWR_EVENT_LPM_IN_L2 != 0
}

/// A Type-C role event.
#[derive(Clone, Copy, PartialEq, Eq, Debug)]
pub enum TypecEvent {
    AttachDetected,
    DetachDetected,
    HostDetected,
    Other,
}

/// What a role event does to the gadget.
#[derive(Clone, Copy, PartialEq, Eq, Debug)]
pub enum TypecReaction {
    /// Stop advertising and tear the gadget down: unbind, end data and GSI
    /// transfers, disable the endpoints, Run/Stop off, reset the driver.
    TearDown,
    /// Reassert the session-valid overrides for the new session.
    AssertSession,
    Nothing,
}

/// The reaction to a role event: a detach and a switch to host both tear
/// the gadget down; an attach reasserts the session.
pub fn typec_reaction(e: TypecEvent) -> (r: TypecReaction)
    ensures
        r == match e {
            TypecEvent::DetachDetected | TypecEvent::HostDetected => TypecReaction::TearDown,
            TypecEvent::AttachDetected => TypecReaction::AssertSession,
            TypecEvent::Other => TypecReaction::Nothing,
        },
{
    match e {
        TypecEvent::DetachDetected | TypecEvent::HostDetected => TypecReaction::TearDown,
        TypecEvent::AttachDetected => TypecReaction::AssertSession,
        TypecEvent::Other => TypecReaction::Nothing,
    }
}

/// Polling the Type-C state: once the interrupt routes are live only the
/// interrupt reads it; otherwise every 16384th poll (or a forced one).
/// Returns the advanced tick counter and whether to read now.
pub fn typec_poll_due(valid: bool, irq_routes_enabled: bool, ticks: u32, force: bool) -> (r: (
    u32,
    bool,
))
    ensures
        r == if !valid || irq_routes_enabled {
            (ticks, false)
        } else {
            let next = if ticks == 0xffff_ffffu32 {
                0u32
            } else {
                (ticks + 1) as u32
            };
            (next, force || next & 0x3fff == 0)
        },
{
    if !valid || irq_routes_enabled {
        return (ticks, false);
    }
    let next = if ticks == u32::MAX {
        0
    } else {
        ticks + 1
    };
    (next, force || next & 0x3fff == 0)
}

} // verus!
