use fullerene_usb::usb2_handoff::{
    bare_pullup_plan, handoff_first_step, handoff_next, handoff_route, usb2_attempt_next,
    AttemptNext, BareFinish, BarePullupPlan, HandoffNext, HandoffRoute, HandoffStep, Usb2Attempt,
    Usb2HandoffOptions,
};

/// Drive the machine with the given outcomes; returns the steps performed
/// and the result.
fn drive(outcomes: &[bool]) -> (Vec<HandoffStep>, Option<bool>) {
    let mut steps = Vec::new();
    let mut step = handoff_first_step();
    for &ok in outcomes {
        steps.push(step);
        match handoff_next(step, ok) {
            HandoffNext::Step(next) => step = next,
            HandoffNext::Finished { ok } => return (steps, Some(ok)),
        }
    }
    steps.push(step);
    (steps, None)
}

#[test]
fn route_by_build() {
    assert_eq!(handoff_route(true, true, false), HandoffRoute::SuperSpeed { reset_core: true });
    assert_eq!(handoff_route(true, false, true), HandoffRoute::SuperSpeed { reset_core: false });
    assert_eq!(handoff_route(false, true, false), HandoffRoute::ReuseFastbootEp0);
    assert_eq!(handoff_route(false, false, false), HandoffRoute::Usb2Steps);
}

#[test]
fn all_steps_succeed() {
    let (steps, result) = drive(&[true; 10]);
    assert_eq!(result, Some(true));
    assert_eq!(
        steps,
        vec![
            HandoffStep::PrepareSession,
            HandoffStep::ResetController,
            HandoffStep::ProgramController,
            HandoffStep::MapDma,
            HandoffStep::PublishEventRing,
            HandoffStep::DrainPowerEvents,
            HandoffStep::ConfigureEp0,
            HandoffStep::ArmSetup,
            HandoffStep::PollEvents,
            HandoffStep::RunStop,
        ]
    );
}

#[test]
fn infallible_steps_ignore_their_report() {
    let outcomes = [false, true, false, true, false, false, true, true, false, true];
    let (steps, result) = drive(&outcomes);
    assert_eq!(result, Some(true));
    assert_eq!(steps.len(), 10);
}

#[test]
fn failed_ep0_configuration_never_connects() {
    let mut outcomes = [true; 10];
    outcomes[6] = false;
    let (steps, result) = drive(&outcomes);
    assert_eq!(result, Some(false));
    assert_eq!(steps.last(), Some(&HandoffStep::ConfigureEp0));
    assert!(!steps.contains(&HandoffStep::RunStop));
}

#[test]
fn each_fatal_step_ends_the_attempt() {
    for (index, step) in [
        (1usize, HandoffStep::ResetController),
        (3, HandoffStep::MapDma),
        (6, HandoffStep::ConfigureEp0),
        (7, HandoffStep::ArmSetup),
        (9, HandoffStep::RunStop),
    ] {
        let mut outcomes = [true; 10];
        outcomes[index] = false;
        let (steps, result) = drive(&outcomes);
        assert_eq!(result, Some(false));
        assert_eq!(steps.len(), index + 1);
        assert_eq!(steps[index], step);
    }
}

fn options() -> Usb2HandoffOptions {
    Usb2HandoffOptions {
        gadget_probe: false,
        post_runstop_signal: false,
        qmp_phase_requested: false,
        single_attempt: false,
    }
}

/// Run the attempt chain; `report` gives each attempt's result.
fn chain(o: Usb2HandoffOptions, report: &dyn Fn(Usb2Attempt) -> bool) -> (Vec<Usb2Attempt>, bool) {
    let mut attempts = vec![Usb2Attempt::VotePower];
    let mut a = Usb2Attempt::VotePower;
    loop {
        match usb2_attempt_next(o, a, report(a)) {
            AttemptNext::Attempt(next) => {
                attempts.push(next);
                a = next;
            }
            AttemptNext::Finished { ok } => return (attempts, ok),
        }
    }
}

#[test]
fn attempt_chain_without_probe() {
    let (attempts, ok) = chain(options(), &|_| true);
    assert!(ok);
    assert_eq!(attempts, vec![Usb2Attempt::VotePower, Usb2Attempt::UsbStart]);
    let (attempts, ok) = chain(options(), &|a| a != Usb2Attempt::UsbStart);
    assert!(ok);
    assert_eq!(attempts.last(), Some(&Usb2Attempt::GadgetHandoffRetry));
    let single = Usb2HandoffOptions { single_attempt: true, ..options() };
    let (attempts, ok) = chain(single, &|a| a != Usb2Attempt::UsbStart);
    assert!(!ok);
    assert_eq!(attempts.last(), Some(&Usb2Attempt::UsbStart));
    let phase = Usb2HandoffOptions { qmp_phase_requested: true, ..options() };
    assert_eq!(chain(phase, &|_| true), (vec![Usb2Attempt::VotePower], false));
}

#[test]
fn attempt_chain_with_probe() {
    let probe = Usb2HandoffOptions { gadget_probe: true, ..options() };
    assert_eq!(
        chain(probe, &|_| true),
        (vec![Usb2Attempt::VotePower, Usb2Attempt::GadgetHandoff], true)
    );
    let (attempts, ok) = chain(probe, &|a| a == Usb2Attempt::UsbStart);
    assert!(ok);
    assert_eq!(attempts, vec![Usb2Attempt::VotePower, Usb2Attempt::GadgetHandoff, Usb2Attempt::UsbStart]);
    let signal = Usb2HandoffOptions { post_runstop_signal: true, ..probe };
    assert_eq!(
        chain(signal, &|a| a != Usb2Attempt::GadgetHandoff),
        (vec![Usb2Attempt::VotePower, Usb2Attempt::GadgetHandoff], false)
    );
}

#[test]
fn bare_pullup_plans() {
    assert_eq!(
        bare_pullup_plan(true, true, None),
        BarePullupPlan { stop_at: None, dalepena: Some(3), finish: BareFinish::RunStop { on: true } }
    );
    assert_eq!(
        bare_pullup_plan(false, false, Some(2)),
        BarePullupPlan { stop_at: Some(2), dalepena: Some(0), finish: BareFinish::RunStop { on: false } }
    );
    assert_eq!(
        bare_pullup_plan(false, true, Some(4)),
        BarePullupPlan { stop_at: None, dalepena: None, finish: BareFinish::Preserve }
    );
    assert_eq!(bare_pullup_plan(true, false, Some(0)).stop_at, None);
    assert_eq!(bare_pullup_plan(true, false, Some(3)).stop_at, Some(3));
}
