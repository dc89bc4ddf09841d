use fullerene_usb::start_sequence::{
    begin_attempt, init, init_usb2_only, start_begin, start_next, super_speed_handoff, StartConfig, StartNext,
    StartStep,
};

/// Drive a start: `report` gives each step's outcome. Returns the steps
/// performed and how the start ended.
fn drive(c: StartConfig, report: &dyn Fn(StartStep) -> bool) -> (Vec<StartStep>, StartNext) {
    let mut steps = Vec::new();
    let mut p = start_begin();
    loop {
        steps.push(p.step);
        match start_next(c, p, report(p.step)) {
            StartNext::Step(q) => p = q,
            end => return (steps, end),
        }
        assert!(steps.len() < 64);
    }
}

fn all_ok(_: StartStep) -> bool {
    true
}

/// Every step succeeds and the QMP phase probe does not stop the bring-up.
fn ss_ok(s: StartStep) -> bool {
    s != StartStep::QmpPhaseProbe
}

const COMMON_TAIL: [StartStep; 14] = [
    StartStep::ProgramGlobal,
    StartStep::ClearDma,
    StartStep::ReinitHsPhy,
    StartStep::ReassertGlue,
    StartStep::MapDma,
    StartStep::PublishEventRing,
    StartStep::StartConfig,
    StartStep::ConfigureEp0,
    StartStep::EnableEndpoints,
    StartStep::PollEvents,
    StartStep::ConnectPrep,
    StartStep::CommandGate,
    StartStep::RunStop,
    StartStep::ArmSetup,
];

#[test]
fn usb2_handoff_with_core_reset() {
    let c = StartConfig { super_speed: false, reset_core: true, reset_platform: false };
    let (steps, end) = drive(c, &all_ok);
    assert_eq!(end, StartNext::Finished { ok: true });
    let mut expected = vec![
        StartStep::BypassSmmu,
        StartStep::BeginAttempt,
        StartStep::CheckPowerContract,
        StartStep::VoteDomain,
        StartStep::PrepareSession,
        StartStep::BarePullup,
        StartStep::ResetCore,
        StartStep::EnableUtmiClock,
    ];
    expected.extend_from_slice(&COMMON_TAIL);
    assert_eq!(steps, expected);
}

#[test]
fn cold_super_speed_start() {
    let c = StartConfig { super_speed: true, reset_core: true, reset_platform: true };
    let (steps, end) = drive(c, &all_ok);
    assert_eq!(end, StartNext::Finished { ok: true });
    assert!(steps.contains(&StartStep::ApplyPlatformPower));
    assert!(steps.contains(&StartStep::ColdPhyBringUp));
    assert!(!steps.contains(&StartStep::InitQmp));
    assert!(!steps.contains(&StartStep::ReinitHsPhy));
    assert!(!steps.contains(&StartStep::StopDevice));
}

#[test]
fn super_speed_handoff_without_core_reset() {
    let c = StartConfig { super_speed: true, reset_core: false, reset_platform: false };
    let (steps, end) = drive(c, &ss_ok);
    assert_eq!(end, StartNext::Finished { ok: true });
    assert_eq!(
        &steps[..12],
        &[
            StartStep::BypassSmmu,
            StartStep::BeginAttempt,
            StartStep::CheckPowerContract,
            StartStep::VoteDomain,
            StartStep::PrepareSession,
            StartStep::StopDevice,
            StartStep::ResetQmpBlocks,
            StartStep::PowerQmp,
            StartStep::InitQmp,
            StartStep::QmpPhaseProbe,
            StartStep::ProgramGlobal,
            StartStep::ReassertGlue,
        ]
    );
    assert!(!steps.contains(&StartStep::ResetCore));
    assert!(!steps.contains(&StartStep::ClearDma));
}

#[test]
fn qmp_readiness_is_tracked() {
    let c = StartConfig { super_speed: true, reset_core: true, reset_platform: false };
    let mut p = start_begin();
    let mut qmp_at_run_stop = None;
    loop {
        if p.step == StartStep::RunStop {
            qmp_at_run_stop = Some(p.qmp_ready);
        }
        match start_next(c, p, ss_ok(p.step)) {
            StartNext::Step(q) => p = q,
            _ => break,
        }
    }
    assert_eq!(qmp_at_run_stop, Some(true));
    // Cold start without SuperSpeed: the PHY report never claims QMP.
    let c = StartConfig { super_speed: false, reset_core: true, reset_platform: true };
    let mut p = start_begin();
    loop {
        assert!(!p.qmp_ready);
        match start_next(c, p, true) {
            StartNext::Step(q) => p = q,
            _ => break,
        }
    }
}

#[test]
fn failed_qmp_init_ends_the_super_speed_handoff() {
    let c = StartConfig { super_speed: true, reset_core: true, reset_platform: false };
    let report = |s: StartStep| !(s == StartStep::InitQmp || s == StartStep::QmpPhaseProbe);
    let (steps, end) = drive(c, &report);
    assert_eq!(end, StartNext::Finished { ok: false });
    assert_eq!(steps.last(), Some(&StartStep::QmpPhaseProbe));
}

#[test]
fn phase_probe_falls_back_to_usb2() {
    let c = StartConfig { super_speed: true, reset_core: true, reset_platform: false };
    let report = |s: StartStep| s != StartStep::FallbackBarePullup;
    let (steps, end) = drive(c, &report);
    assert_eq!(end, StartNext::Finished { ok: false });
    assert_eq!(steps.last(), Some(&StartStep::FallbackBarePullup));
    let (steps, end) = drive(c, &all_ok);
    assert_eq!(end, StartNext::Finished { ok: true });
    assert_eq!(steps.last(), Some(&StartStep::FallbackBarePullup));
    assert!(!steps.contains(&StartStep::RunStop));
}

#[test]
fn power_contract_fatal_only_for_cold_start() {
    let bad_contract = |s: StartStep| s != StartStep::CheckPowerContract;
    let cold = StartConfig { super_speed: false, reset_core: true, reset_platform: true };
    assert_eq!(drive(cold, &bad_contract).1, StartNext::Finished { ok: false });
    let handoff = StartConfig { super_speed: false, reset_core: true, reset_platform: false };
    assert_eq!(drive(handoff, &bad_contract).1, StartNext::Finished { ok: true });
}

#[test]
fn fatal_steps_end_before_run_stop() {
    let c = StartConfig { super_speed: false, reset_core: true, reset_platform: false };
    for failing in [StartStep::MapDma, StartStep::StartConfig, StartStep::ConfigureEp0, StartStep::ResetCore] {
        let report = |s: StartStep| s != failing;
        let (steps, end) = drive(c, &report);
        assert_eq!(end, StartNext::Finished { ok: false });
        assert_eq!(steps.last(), Some(&failing));
        assert!(!steps.contains(&StartStep::RunStop));
    }
    let report = |s: StartStep| s != StartStep::RunStop;
    assert_eq!(drive(c, &report).1, StartNext::Finished { ok: false });
    // Non-fatal reports do not stop the start.
    let report = |s: StartStep| s != StartStep::EnableUtmiClock && s != StartStep::BarePullup;
    assert_eq!(drive(c, &report).1, StartNext::Finished { ok: true });
}

#[test]
fn command_gate_failure_parks() {
    let c = StartConfig { super_speed: false, reset_core: true, reset_platform: false };
    let report = |s: StartStep| s != StartStep::CommandGate;
    let (steps, end) = drive(c, &report);
    assert_eq!(end, StartNext::ParkAfterGateFailure);
    assert_eq!(steps.last(), Some(&StartStep::CommandGate));
}

#[test]
fn entry_point_configurations() {
    assert_eq!(init(), StartConfig { super_speed: true, reset_core: true, reset_platform: true });
    assert_eq!(init_usb2_only(), StartConfig { super_speed: false, reset_core: true, reset_platform: true });
    assert_eq!(
        super_speed_handoff(false),
        StartConfig { super_speed: true, reset_core: false, reset_platform: false }
    );
}

#[test]
fn begin_attempt_harvests_from_the_second_attempt() {
    assert_eq!(begin_attempt(0), (1, false));
    assert_eq!(begin_attempt(1), (2, true));
    assert_eq!(begin_attempt(41), (42, true));
    // The count wraps as the attempt counter does.
    assert_eq!(begin_attempt(u32::MAX), (0, false));
}
