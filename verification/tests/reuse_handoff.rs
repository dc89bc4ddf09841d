use fullerene_usb::reuse_handoff::{
    reuse_begin, reuse_next, stop_stage_of, ReuseConfig, ReuseNext, ReuseProgress, ReuseStep,
};

fn plain() -> ReuseConfig {
    ReuseConfig {
        stop_stages: 0,
        reuse_fastboot_dma: false,
        android_block_reset: false,
        preserve_core: false,
        android_resource_order: false,
        no_transfer_resource: false,
        xbl_between_ep0: false,
        xbl_deferred_setup: false,
        defer_setup: false,
    }
}

/// Drive the probe; returns the progress at each step and how it ended.
fn drive(c: ReuseConfig, report: &dyn Fn(ReuseStep) -> bool) -> (Vec<ReuseProgress>, ReuseNext) {
    let mut seen = Vec::new();
    let mut p = reuse_begin();
    loop {
        seen.push(p);
        match reuse_next(c, p, report(p.step)) {
            ReuseNext::Step(q) => p = q,
            end => return (seen, end),
        }
        assert!(seen.len() < 64);
    }
}

fn steps(seen: &[ReuseProgress]) -> Vec<ReuseStep> {
    seen.iter().map(|p| p.step).collect()
}

fn all_ok(_: ReuseStep) -> bool {
    true
}

#[test]
fn plain_probe_sequence() {
    let (seen, end) = drive(plain(), &all_ok);
    assert_eq!(end, ReuseNext::Finished { ok: true });
    assert_eq!(
        steps(&seen),
        vec![
            ReuseStep::BypassSmmu,
            ReuseStep::SnapshotClocks,
            ReuseStep::CaptureRamClock,
            ReuseStep::BarePullupPrep,
            ReuseStep::DeviceReset,
            ReuseStep::ClockPrep,
            ReuseStep::ProgramController,
            ReuseStep::MapDma,
            ReuseStep::PublishEventRing,
            ReuseStep::StartConfig,
            ReuseStep::ConfigureEp0Out,
            ReuseStep::Ep0OutResource,
            ReuseStep::EnableEp0Out,
            ReuseStep::ConfigureEp0In,
            ReuseStep::EnableEp0In,
            ReuseStep::PrepareSetupTrb,
            ReuseStep::StartSetup,
            ReuseStep::PollEvents,
            ReuseStep::ConnectPrep,
            ReuseStep::RunStop,
            ReuseStep::ArmWindow,
        ]
    );
    let at_run_stop = seen.iter().find(|p| p.step == ReuseStep::RunStop).unwrap();
    assert!(at_run_stop.endpoints_ready && at_run_stop.setup_armed);
}

#[test]
fn stop_boundaries() {
    let c = ReuseConfig { stop_stages: 1 << 1, ..plain() };
    let (seen, end) = drive(c, &all_ok);
    assert_eq!(end, ReuseNext::Finished { ok: true });
    assert_eq!(seen.last().unwrap().step, ReuseStep::StopStage1);
    let c = ReuseConfig { stop_stages: 1 << 3, ..plain() };
    let (seen, end) = drive(c, &all_ok);
    assert_eq!(end, ReuseNext::Finished { ok: false });
    assert_eq!(seen.last().unwrap().step, ReuseStep::StopStage3);
    // Stage 9 comes before stage 5 in the sequence.
    let c = ReuseConfig { stop_stages: (1 << 9) | (1 << 5), ..plain() };
    let (seen, _) = drive(c, &all_ok);
    assert_eq!(seen.last().unwrap().step, ReuseStep::StopStage9);
    let c = ReuseConfig { stop_stages: 1 << 7, ..plain() };
    let (seen, end) = drive(c, &all_ok);
    assert_eq!(end, ReuseNext::Finished { ok: false });
    assert_eq!(seen.last().unwrap().step, ReuseStep::StopStage7);
    assert_eq!(stop_stage_of(ReuseStep::StopStage12), Some(12));
    assert_eq!(stop_stage_of(ReuseStep::RunStop), None);
}

#[test]
fn failures_report_their_stage() {
    for (failing, end) in [
        (ReuseStep::BypassSmmu, ReuseNext::Finished { ok: false }),
        (ReuseStep::DeviceReset, ReuseNext::FailedAtStage { stage: 2 }),
        (ReuseStep::MapDma, ReuseNext::FailedAtStage { stage: 3 }),
        (ReuseStep::StartConfig, ReuseNext::FailedAtStage { stage: 4 }),
        (ReuseStep::ConfigureEp0Out, ReuseNext::FailedAtStage { stage: 5 }),
        (ReuseStep::Ep0OutResource, ReuseNext::FailedAtStage { stage: 5 }),
        (ReuseStep::ConfigureEp0In, ReuseNext::FailedAtStage { stage: 5 }),
        (ReuseStep::StartSetup, ReuseNext::FailedAtStage { stage: 12 }),
    ] {
        let report = |s: ReuseStep| s != failing;
        let (seen, got) = drive(plain(), &report);
        assert_eq!(got, end);
        assert_eq!(seen.last().unwrap().step, failing);
        assert!(!steps(&seen).contains(&ReuseStep::RunStop));
    }
    // A Run/Stop readback timeout and a failed bare preparation continue.
    let report = |s: ReuseStep| s != ReuseStep::RunStop && s != ReuseStep::BarePullupPrep;
    assert_eq!(drive(plain(), &report).1, ReuseNext::Finished { ok: true });
}

#[test]
fn option_steps() {
    let c = ReuseConfig { reuse_fastboot_dma: true, ..plain() };
    let report = |s: ReuseStep| s != ReuseStep::CaptureFastbootEventRing;
    assert_eq!(drive(c, &report).1, ReuseNext::FailedAtStage { stage: 1 });
    let c = ReuseConfig { preserve_core: true, android_block_reset: true, ..plain() };
    let (seen, _) = drive(c, &all_ok);
    assert!(!steps(&seen).contains(&ReuseStep::DeviceReset));
    assert!(steps(&seen).contains(&ReuseStep::AndroidBlockReset));
    let c = ReuseConfig { android_resource_order: true, ..plain() };
    let (seen, _) = drive(c, &all_ok);
    assert!(steps(&seen).contains(&ReuseStep::PreallocateResources));
    assert!(!steps(&seen).contains(&ReuseStep::Ep0OutResource));
    let c = ReuseConfig { android_resource_order: true, no_transfer_resource: true, ..plain() };
    let (seen, _) = drive(c, &all_ok);
    assert!(!steps(&seen).contains(&ReuseStep::PreallocateResources));
    assert!(!steps(&seen).contains(&ReuseStep::Ep0OutResource));
}

#[test]
fn deferred_setup_connects_unarmed() {
    let c = ReuseConfig { defer_setup: true, ..plain() };
    let (seen, end) = drive(c, &all_ok);
    assert_eq!(end, ReuseNext::Finished { ok: true });
    assert!(!steps(&seen).contains(&ReuseStep::StartSetup));
    let at_run_stop = seen.iter().find(|p| p.step == ReuseStep::RunStop).unwrap();
    assert!(at_run_stop.endpoints_ready && !at_run_stop.setup_armed);
}

#[test]
fn setup_between_ep0_pairs() {
    let c = ReuseConfig { xbl_between_ep0: true, ..plain() };
    let (seen, end) = drive(c, &all_ok);
    assert_eq!(end, ReuseNext::Finished { ok: true });
    let s = steps(&seen);
    let out = s.iter().position(|x| *x == ReuseStep::EnableEp0Out).unwrap();
    assert_eq!(
        &s[out + 1..out + 5],
        &[
            ReuseStep::XblQueueRequest,
            ReuseStep::XblStartSetup,
            ReuseStep::XblStartRequest,
            ReuseStep::ConfigureEp0In,
        ]
    );
    assert!(s.contains(&ReuseStep::QueueSetupRequest));
    assert!(!s.contains(&ReuseStep::StartSetup));
    let report = |x: ReuseStep| x != ReuseStep::XblStartSetup;
    assert_eq!(drive(c, &report).1, ReuseNext::FailedAtStage { stage: 12 });
}
