use fullerene_usb::probe::{
    recovery_forces_high_speed, ss_gate_delay_ms, stage_probe, u0_advance, u0_arm_probe_enabled,
    u0_begin, StageProbe, U0Recovery, U0Step,
};

#[test]
fn stage_probes_by_boundary() {
    let all = u32::MAX;
    assert_eq!(stage_probe(0, 7, true, false), None);
    assert_eq!(stage_probe(all, 3, true, false), Some(StageProbe::Bare));
    assert_eq!(stage_probe(all, 7, true, false), Some(StageProbe::RunStopBoundary { super_speed: false }));
    assert_eq!(stage_probe(all, 8, true, true), Some(StageProbe::ResetThenBare));
    assert_eq!(
        stage_probe(all, 6, true, false),
        Some(StageProbe::RunStop { clear_pipe_susphy: false, super_speed: false, capture_ss: false, usb2_marker: false })
    );
    assert_eq!(
        stage_probe(all, 14, true, false),
        Some(StageProbe::RunStop { clear_pipe_susphy: true, super_speed: true, capture_ss: true, usb2_marker: false })
    );
    assert_eq!(
        stage_probe(all, 20, true, false),
        Some(StageProbe::RunStop { clear_pipe_susphy: true, super_speed: true, capture_ss: false, usb2_marker: true })
    );
    assert_eq!(stage_probe(all, 22, false, false), Some(StageProbe::AfterRunStop { capture_ss: false }));
    assert_eq!(stage_probe(all, 30, true, false), None);
}

#[test]
fn ss_gate_delays() {
    assert_eq!(ss_gate_delay_ms("ss-speed", 0), 0);
    assert_eq!(ss_gate_delay_ms("ss-speed", 1), 4000);
    assert_eq!(ss_gate_delay_ms("ss-speed", 4), 8000);
    assert_eq!(ss_gate_delay_ms("ss-ltssm", 7), 1750);
    assert_eq!(ss_gate_delay_ms("ss-ltssm", 31), 3750);
    assert_eq!(ss_gate_delay_ms("ss-ltssm-bit1-wide", 1), 8000);
    assert_eq!(ss_gate_delay_ms("ss-ltssm-bit1-wide", 0), 0);
}

#[test]
fn u0_recovery_settings() {
    assert!(!u0_arm_probe_enabled(None));
    assert!(!u0_arm_probe_enabled(Some("0")));
    assert!(u0_arm_probe_enabled(Some("1")));
    assert!(recovery_forces_high_speed(Some("forcehs")));
    assert!(recovery_forces_high_speed(Some("gdbforce")));
    assert!(!recovery_forces_high_speed(Some("done")));
    assert!(!recovery_forces_high_speed(None));
}

#[test]
fn u0_recovery_sequence() {
    // Probe off: the not-run answer, and the recorded status is left alone.
    let (r, step) = u0_begin(false, false, false, false, false, 7, false, 0, 0, false, 512);
    assert_eq!(step, U0Step::Done { status: 0xffff_ffff });
    assert_eq!(r.status, 7);
    // SETUP already armed with the endpoints ready: nothing to do, status 0.
    let (r, step) = u0_begin(true, true, true, false, false, 7, false, 0, 0, false, 512);
    assert_eq!(step, U0Step::Done { status: 0 });
    assert_eq!(r.status, 0);

    // SuperSpeed still reported: 512-byte EP0, DCFG SuperSpeed, address cleared.
    let (r, step) = u0_begin(true, false, true, false, false, 7, false, 0x0080_03fc, 4, false, 512);
    assert_eq!(r, U0Recovery { status: 7, defer_start: false, max_packet: 512 });
    assert_eq!(step, U0Step::Rebuild { dcfg: 0x0080_0004 });
    let (r, step) = u0_advance(r, step, true, 0);
    assert_eq!(step, U0Step::ConfigureOut { max_packet: 512 });
    let (r, step) = u0_advance(r, step, true, 0);
    assert_eq!(step, U0Step::ConfigureIn { max_packet: 512 });
    let (r, step) = u0_advance(r, step, true, 0);
    assert_eq!(step, U0Step::StartSetup);
    let (r, step) = u0_advance(r, step, false, 0);
    assert_eq!(step, U0Step::RunStop);
    let (_, step) = u0_advance(r, step, true, 0);
    assert_eq!(step, U0Step::Done { status: 8 });

    // High speed forced, stop first, deferred arm.
    let (r, step) = u0_begin(true, false, false, true, true, 0xffff_ffff, true, 0x4, 4, true, 512);
    assert_eq!(step, U0Step::StopDevice);
    assert_eq!(r.max_packet, 64);
    let (r, step) = u0_advance(r, step, true, 0x0);
    assert_eq!(step, U0Step::Rebuild { dcfg: 0 });
    let (r, step) = u0_advance(r, step, true, 0);
    let (r, step) = u0_advance(r, step, true, 0);
    let (r, step) = u0_advance(r, step, true, 0);
    assert_eq!(step, U0Step::RunStop);
    assert_eq!(r.status, 0);
    let (r, step) = u0_advance(r, step, true, 0);
    assert_eq!(step, U0Step::ArmAfterRunStop);
    assert_eq!(u0_advance(r, step, true, 0).1, U0Step::Done { status: 0 });
    assert_eq!(u0_advance(r, step, false, 0).1, U0Step::Done { status: 8 });

    // Failures name their step.
    let r = U0Recovery { status: 0, defer_start: false, max_packet: 64 };
    assert_eq!(u0_advance(r, U0Step::StopDevice, false, 0).1, U0Step::Done { status: 1 });
    assert_eq!(u0_advance(r, U0Step::Rebuild { dcfg: 0 }, false, 0).1, U0Step::Done { status: 4 });
    assert_eq!(u0_advance(r, U0Step::ConfigureOut { max_packet: 64 }, false, 0).1, U0Step::Done { status: 5 });
    assert_eq!(u0_advance(r, U0Step::ConfigureIn { max_packet: 64 }, false, 0).1, U0Step::Done { status: 6 });
    assert_eq!(u0_advance(r, U0Step::RunStop, false, 0).1, U0Step::Done { status: 1 });
}
