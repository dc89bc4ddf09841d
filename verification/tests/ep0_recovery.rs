use fullerene_usb::ep0::{ControlState, Ep0Stage};
use fullerene_usb::ep0_recovery::{
    arm_setup_begin, arm_setup_finish, on_control_error, rescue_read64, ArmStart,
    ControlRecovery, RescueAction, ARM_COOLDOWN_POLLS,
};

fn ready() -> ControlState {
    ControlState {
        stage: Ep0Stage::Setup,
        setup_armed: false,
        endpoints_ready: true,
        configured: false,
        data_endpoints_ready: false,
        function_bound: false,
        control_in: false,
        control_has_data: false,
        pending_setup_arm: true,
        resource_out: 0,
        resource_in: 0,
    }
}

const HALTED: u32 = 0x40_0000;

#[test]
fn arming_is_settled_without_work() {
    let mut cooldown = 7;
    let armed = ControlState { setup_armed: true, ..ready() };
    assert_eq!(arm_setup_begin(&armed, &mut cooldown, 0, true), ArmStart::Settled { armed: true });
    let unready = ControlState { endpoints_ready: false, ..ready() };
    assert_eq!(arm_setup_begin(&unready, &mut cooldown, 0, true), ArmStart::Settled { armed: false });
    let busy = ControlState { stage: Ep0Stage::Data, ..ready() };
    assert_eq!(arm_setup_begin(&busy, &mut cooldown, 0, true), ArmStart::Settled { armed: false });
    assert_eq!(cooldown, 7);
}

#[test]
fn arming_cooldown_then_start() {
    let s = ready();
    let mut cooldown = 2;
    assert_eq!(arm_setup_begin(&s, &mut cooldown, 0, true), ArmStart::CoolingDown);
    assert_eq!(cooldown, 1);
    assert_eq!(arm_setup_begin(&s, &mut cooldown, 0, true), ArmStart::CoolingDown);
    assert_eq!(cooldown, 0);
    assert_eq!(arm_setup_begin(&s, &mut cooldown, HALTED, true), ArmStart::Halted);
    assert_eq!(arm_setup_begin(&s, &mut cooldown, HALTED, false), ArmStart::Start);
    assert_eq!(arm_setup_begin(&s, &mut cooldown, 0, true), ArmStart::Start);
    assert_eq!(cooldown, 0);
}

#[test]
fn arming_outcome() {
    let mut s = ready();
    let mut cooldown = 0;
    assert!(!arm_setup_finish(&mut s, &mut cooldown, false));
    assert_eq!(cooldown, ARM_COOLDOWN_POLLS);
    assert_eq!(cooldown, 200);
    assert_eq!(s, ready());
    let mut cooldown = 0;
    assert!(arm_setup_finish(&mut s, &mut cooldown, true));
    assert!(s.setup_armed);
    assert!(!s.pending_setup_arm);
    assert_eq!(cooldown, 0);
}

#[test]
fn control_error_recovery() {
    let mut s = ControlState {
        stage: Ep0Stage::Data,
        control_in: true,
        control_has_data: true,
        resource_out: 3,
        resource_in: 4,
        ..ready()
    };
    let r = on_control_error(&mut s, 1);
    assert_eq!(r, ControlRecovery { end_transfer: true, rearm_setup: true });
    assert_eq!(s.stage, Ep0Stage::Setup);
    assert!(!s.control_in && !s.control_has_data);
    assert_eq!((s.resource_out, s.resource_in), (3, 0));
    let r = on_control_error(&mut s, 1);
    assert_eq!(r, ControlRecovery { end_transfer: false, rearm_setup: true });
    let mut t = ControlState { endpoints_ready: false, ..ready() };
    let r = on_control_error(&mut t, 5);
    assert_eq!(r, ControlRecovery { end_transfer: false, rearm_setup: false });
}

#[test]
fn rescue_of_stalled_descriptor_request() {
    let request = (6u32 << 16) | 64;
    let link_on = 0u32;
    let mut s = ready();
    // Not the stalled request, or the link is not on.
    assert_eq!(rescue_read64(&mut s, u32::MAX, link_on, true), (0, RescueAction::NotApplicable));
    assert_eq!(rescue_read64(&mut s, (6 << 16) | 18, link_on, true), (0, RescueAction::NotApplicable));
    assert_eq!(rescue_read64(&mut s, request, HALTED, true), (0, RescueAction::NotApplicable));
    assert_eq!(rescue_read64(&mut s, request, 5 << 18, true), (0, RescueAction::NotApplicable));
    // A latched SETUP overrides the stage.
    let mut data = ControlState { stage: Ep0Stage::Data, ..ready() };
    assert_eq!(rescue_read64(&mut data, request, link_on, true), (1, RescueAction::HandleLatchedSetup));
    assert_eq!(data.stage, Ep0Stage::Setup);
    assert_eq!(rescue_read64(&mut s, request, link_on, false), (2, RescueAction::RearmSetup));
    let mut data = ControlState { stage: Ep0Stage::Data, ..ready() };
    assert_eq!(rescue_read64(&mut data, request, link_on, false), (3, RescueAction::RestartDataIn));
    assert_eq!(data.stage, Ep0Stage::Data);
    let mut status_in = ControlState {
        stage: Ep0Stage::Status,
        control_in: true,
        control_has_data: true,
        ..ready()
    };
    assert_eq!(
        rescue_read64(&mut status_in, request, link_on, false),
        (4, RescueAction::RestartStatus { endpoint: 0 })
    );
    let mut status_out = ControlState { stage: Ep0Stage::Status, control_in: true, ..ready() };
    assert_eq!(
        rescue_read64(&mut status_out, request, link_on, false),
        (4, RescueAction::RestartStatus { endpoint: 1 })
    );
}
