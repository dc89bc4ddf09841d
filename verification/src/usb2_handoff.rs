//! The USB2 gadget handoff from Fastboot as a step machine: the caller
//! performs each step on the hardware and reports whether it succeeded; the
//! machine names the next step, or the attempt's result. The device is
//! connected (Run/Stop) only after the event ring, the EP0 contexts and the
//! first SETUP transfer are ready, so the host never sees an EP0-less
//! device.

use vstd::prelude::*;

verus! {

/// Which start the handoff entry point takes, as the build selects it.
#[derive(Clone, Copy, PartialEq, Eq, Debug)]
pub enum HandoffRoute {
    /// The SuperSpeed start, without a platform reset; `reset_core` unless
    /// the build preserves the core.
    SuperSpeed { reset_core: bool },
    /// The stage probe that reuses Fastboot's EP0 state.
    ReuseFastbootEp0,
    /// The USB2 step machine below.
    Usb2Steps,
}

/// The route of the handoff entry point.
pub fn handoff_route(super_speed_build: bool, probe_build: bool, preserve_core: bool) -> (r: HandoffRoute)
    ensures
        r == if super_speed_build {
            HandoffRoute::SuperSpeed { reset_core: !preserve_core }
        } else if probe_build {
            HandoffRoute::ReuseFastbootEp0
        } else {
            HandoffRoute::Usb2Steps
        },
{
    if super_speed_build {
        HandoffRoute::SuperSpeed { reset_core: !preserve_core }
    } else if probe_build {
        HandoffRoute::ReuseFastbootEp0
    } else {
        HandoffRoute::Usb2Steps
    }
}

/// One step of the USB2 handoff.
#[derive(Clone, Copy, PartialEq, Eq, Structural, Debug)]
pub enum HandoffStep {
    /// Assert the glue's session votes and RAM clocks, select device mode
    /// and program the global control.
    PrepareSession,
    /// Stop the running Fastboot session and soft-reset the device.
    ResetController,
    /// Reprogram global control, the UTMI clock select, the reference
    /// clock and the PHY suspend bits after the reset.
    ProgramController,
    /// Map the DMA pool at the Apps-SMMU.
    MapDma,
    /// Publish the event ring, set up the GSI event buffers, reset the
    /// driver's transfer state, and program DCFG, DALEPENA and DEVTEN.
    PublishEventRing,
    /// Enable and drain the glue's power events.
    DrainPowerEvents,
    /// DEPSTARTCFG and both EP0 directions' configuration.
    ConfigureEp0,
    /// Enable both EP0 directions and start the SETUP transfer.
    ArmSetup,
    /// Route the controller interrupt and drain the event ring once.
    PollEvents,
    /// Program the speed, reassert the session and set Run/Stop.
    RunStop,
}

/// What follows a step.
#[derive(Clone, Copy, PartialEq, Eq, Structural, Debug)]
pub enum HandoffNext {
    Step(HandoffStep),
    /// The attempt is over with this result.
    Finished { ok: bool },
}

/// The position of a step in the sequence.
pub open spec fn step_index(s: HandoffStep) -> nat {
    match s {
        HandoffStep::PrepareSession => 0,
        HandoffStep::ResetController => 1,
        HandoffStep::ProgramController => 2,
        HandoffStep::MapDma => 3,
        HandoffStep::PublishEventRing => 4,
        HandoffStep::DrainPowerEvents => 5,
        HandoffStep::ConfigureEp0 => 6,
        HandoffStep::ArmSetup => 7,
        HandoffStep::PollEvents => 8,
        HandoffStep::RunStop => 9,
    }
}

/// The step at a position of the sequence (positions past the end name the
/// last step).
pub open spec fn step_at(i: nat) -> HandoffStep {
    if i == 0 {
        HandoffStep::PrepareSession
    } else if i == 1 {
        HandoffStep::ResetController
    } else if i == 2 {
        HandoffStep::ProgramController
    } else if i == 3 {
        HandoffStep::MapDma
    } else if i == 4 {
        HandoffStep::PublishEventRing
    } else if i == 5 {
        HandoffStep::DrainPowerEvents
    } else if i == 6 {
        HandoffStep::ConfigureEp0
    } else if i == 7 {
        HandoffStep::ArmSetup
    } else if i == 8 {
        HandoffStep::PollEvents
    } else {
        HandoffStep::RunStop
    }
}

/// The number of steps.
pub open spec fn step_count() -> nat {
    10
}

/// Whether a step's failure ends the attempt. The other steps have no
/// outcome that stops the sequence (a missing GSI event buffer only loses
/// the GSI function).
pub open spec fn step_is_fatal(s: HandoffStep) -> bool {
    match s {
        HandoffStep::ResetController | HandoffStep::MapDma | HandoffStep::ConfigureEp0
        | HandoffStep::ArmSetup | HandoffStep::RunStop => true,
        _ => false,
    }
}

/// What follows `s` when it reported `ok`.
pub open spec fn spec_handoff_next(s: HandoffStep, ok: bool) -> HandoffNext {
    if step_is_fatal(s) && !ok {
        HandoffNext::Finished { ok: false }
    } else if step_index(s) + 1 < step_count() {
        HandoffNext::Step(step_at(step_index(s) + 1))
    } else {
        HandoffNext::Finished { ok: true }
    }
}

/// The first step.
pub fn handoff_first_step() -> (s: HandoffStep)
    ensures
        s == step_at(0),
{
    HandoffStep::PrepareSession
}

/// What follows step `s`, which reported `ok` (ignored for steps that
/// cannot fail).
pub fn handoff_next(s: HandoffStep, ok: bool) -> (n: HandoffNext)
    ensures
        n == spec_handoff_next(s, ok),
{
    match s {
        HandoffStep::PrepareSession => HandoffNext::Step(HandoffStep::ResetController),
        HandoffStep::ResetController => if ok {
            HandoffNext::Step(HandoffStep::ProgramController)
        } else {
            HandoffNext::Finished { ok: false }
        },
        HandoffStep::ProgramController => HandoffNext::Step(HandoffStep::MapDma),
        HandoffStep::MapDma => if ok {
            HandoffNext::Step(HandoffStep::PublishEventRing)
        } else {
            HandoffNext::Finished { ok: false }
        },
        HandoffStep::PublishEventRing => HandoffNext::Step(HandoffStep::DrainPowerEvents),
        HandoffStep::DrainPowerEvents => HandoffNext::Step(HandoffStep::ConfigureEp0),
        HandoffStep::ConfigureEp0 => if ok {
            HandoffNext::Step(HandoffStep::ArmSetup)
        } else {
            HandoffNext::Finished { ok: false }
        },
        HandoffStep::ArmSetup => if ok {
            HandoffNext::Step(HandoffStep::PollEvents)
        } else {
            HandoffNext::Finished { ok: false }
        },
        HandoffStep::PollEvents => HandoffNext::Step(HandoffStep::RunStop),
        HandoffStep::RunStop => HandoffNext::Finished { ok },
    }
}

/// Where the machine stands after the steps from position `k` reported
/// `outcomes` in order (outcomes after the end are not consulted).
pub open spec fn run_from(k: nat, outcomes: Seq<bool>) -> HandoffNext
    decreases outcomes.len(),
{
    if outcomes.len() == 0 {
        HandoffNext::Step(step_at(k))
    } else {
        match spec_handoff_next(step_at(k), outcomes[0]) {
            HandoffNext::Step(_) => run_from(k + 1, outcomes.drop_first()),
            HandoffNext::Finished { ok } => HandoffNext::Finished { ok },
        }
    }
}

/// Whether every fatal step among positions `k..k + n` succeeded.
pub open spec fn fatal_steps_ok(k: nat, outcomes: Seq<bool>, n: nat) -> bool {
    forall|i: nat| i < n && i < outcomes.len() && #[trigger] step_is_fatal(step_at(k + i)) ==> outcomes[i as int]
}

proof fn lemma_index_of_step_at(i: nat)
    requires
        i < step_count(),
    ensures
        step_index(step_at(i)) == i,
{
}

proof fn lemma_run_from(k: nat, outcomes: Seq<bool>)
    requires
        k < step_count(),
        k + outcomes.len() <= step_count(),
    ensures
        run_from(k, outcomes) == (if fatal_steps_ok(k, outcomes, outcomes.len()) {
            if k + outcomes.len() < step_count() {
                HandoffNext::Step(step_at(k + outcomes.len()))
            } else {
                HandoffNext::Finished { ok: true }
            }
        } else {
            HandoffNext::Finished { ok: false }
        }),
    decreases outcomes.len(),
{
    if outcomes.len() > 0 {
        lemma_index_of_step_at(k);
        let rest = outcomes.drop_first();
        if k + 1 < step_count() {
            lemma_run_from(k + 1, rest);
        } else {
            assert(step_is_fatal(step_at(k + 0nat)));
        }
        if step_is_fatal(step_at(k)) && !outcomes[0] {
            assert(!fatal_steps_ok(k, outcomes, outcomes.len())) by {
                assert(step_is_fatal(step_at(k + 0nat)));
            }
        } else {
            assert(fatal_steps_ok(k, outcomes, outcomes.len()) == fatal_steps_ok(
                k + 1,
                rest,
                rest.len(),
            )) by {
                if fatal_steps_ok(k, outcomes, outcomes.len()) {
                    assert forall|i: nat| i < rest.len() && i < rest.len() && #[trigger] step_is_fatal(
                        step_at(k + 1 + i),
                    ) implies rest[i as int] by {
                        assert(step_at(k + (i + 1)) == step_at(k + 1 + i));
                        assert(step_is_fatal(step_at(k + (i + 1))));
                    }
                }
                if fatal_steps_ok(k + 1, rest, rest.len()) {
                    assert forall|i: nat| i < outcomes.len() && i < outcomes.len() && #[trigger] step_is_fatal(
                        step_at(k + i),
                    ) implies outcomes[i as int] by {
                        if i > 0 {
                            let j = (i - 1) as nat;
                            assert(step_at(k + 1 + j) == step_at(k + i));
                            assert(step_is_fatal(step_at(k + 1 + j)));
                        }
                    }
                }
            }
        }
    }
}

/// The handoff's outcome is decided by its fatal steps alone: run from the
/// first step over a report for every step, it succeeds exactly when the
/// session reset, the DMA map, the EP0 configuration, the SETUP arm and
/// Run/Stop all succeeded.
pub proof fn lemma_handoff_succeeds_iff_fatal_steps_ok(outcomes: Seq<bool>)
    requires
        outcomes.len() == step_count(),
    ensures
        run_from(0, outcomes) == (HandoffNext::Finished {
            ok: fatal_steps_ok(0, outcomes, step_count()),
        }),
{
    lemma_run_from(0, outcomes);
}

/// Once every step has reported, the attempt is over.
proof fn lemma_run_finishes(k: nat, outcomes: Seq<bool>)
    requires
        k < step_count(),
        k + outcomes.len() >= step_count(),
    ensures
        run_from(k, outcomes) is Finished,
    decreases step_count() - k,
{
    lemma_index_of_step_at(k);
    if let HandoffNext::Step(_) = spec_handoff_next(step_at(k), outcomes[0]) {
        lemma_run_finishes(k + 1, outcomes.drop_first());
    }
}

/// The device is connected only once EP0 is ready: whenever the machine
/// asks for Run/Stop, the reset, the DMA map, the EP0 configuration and
/// the SETUP arm have all succeeded.
pub proof fn lemma_run_stop_only_after_ep0_ready(outcomes: Seq<bool>)
    requires
        run_from(0, outcomes) == HandoffNext::Step(HandoffStep::RunStop),
    ensures
        outcomes.len() == step_index(HandoffStep::RunStop),
        outcomes[step_index(HandoffStep::ResetController) as int],
        outcomes[step_index(HandoffStep::MapDma) as int],
        outcomes[step_index(HandoffStep::ConfigureEp0) as int],
        outcomes[step_index(HandoffStep::ArmSetup) as int],
{
    if outcomes.len() >= step_count() {
        lemma_run_finishes(0, outcomes);
    } else {
        lemma_run_from(0, outcomes);
        lemma_index_of_step_at(outcomes.len());
        assert(step_is_fatal(step_at(0 + 1nat)));
        assert(step_is_fatal(step_at(0 + 3nat)));
        assert(step_is_fatal(step_at(0 + 6nat)));
        assert(step_is_fatal(step_at(0 + 7nat)));
    }
}

/// The build options that decide the USB2 handoff's chain of attempts.
#[derive(Clone, Copy, PartialEq, Eq, Debug)]
pub struct Usb2HandoffOptions {
    /// The USB2 gadget stage probe is built in.
    pub gadget_probe: bool,
    /// The post-Run/Stop event-DMA signal probe is built in: its readout
    /// must not be overwritten by a second attempt.
    pub post_runstop_signal: bool,
    /// The QMP phase probe was requested.
    pub qmp_phase_requested: bool,
    /// The build allows a single attempt.
    pub single_attempt: bool,
}

/// One attempt of the USB2 handoff.
#[derive(Clone, Copy, PartialEq, Eq, Structural, Debug)]
pub enum Usb2Attempt {
    /// Vote the USB power, GDSC and performance state.
    VotePower,
    /// The gadget handoff (the stage probe's route).
    GadgetHandoff,
    /// The controller start without platform reset (USB2, core reset).
    UsbStart,
    /// The gadget handoff as the fallback after a failed start.
    GadgetHandoffRetry,
}

/// What follows an attempt.
#[derive(Clone, Copy, PartialEq, Eq, Structural, Debug)]
pub enum AttemptNext {
    Attempt(Usb2Attempt),
    Finished { ok: bool },
}

/// After the probe's attempt: the phase probe ends the handoff, else the
/// controller start follows.
pub open spec fn after_gadget_probe(o: Usb2HandoffOptions) -> AttemptNext {
    if o.qmp_phase_requested {
        AttemptNext::Finished { ok: false }
    } else {
        AttemptNext::Attempt(Usb2Attempt::UsbStart)
    }
}

/// What follows attempt `a`, which reported `ok`.
pub open spec fn spec_usb2_attempt_next(o: Usb2HandoffOptions, a: Usb2Attempt, ok: bool) -> AttemptNext {
    match a {
        Usb2Attempt::VotePower => if o.gadget_probe {
            AttemptNext::Attempt(Usb2Attempt::GadgetHandoff)
        } else {
            after_gadget_probe(o)
        },
        Usb2Attempt::GadgetHandoff => if ok {
            AttemptNext::Finished { ok: true }
        } else if o.post_runstop_signal {
            AttemptNext::Finished { ok: false }
        } else {
            after_gadget_probe(o)
        },
        Usb2Attempt::UsbStart => if ok {
            AttemptNext::Finished { ok: true }
        } else if o.single_attempt {
            AttemptNext::Finished { ok: false }
        } else {
            AttemptNext::Attempt(Usb2Attempt::GadgetHandoffRetry)
        },
        Usb2Attempt::GadgetHandoffRetry => AttemptNext::Finished { ok },
    }
}

/// What follows attempt `a` of the USB2 handoff, which reported `ok`
/// (ignored for the power vote). The chain begins with `VotePower`.
pub fn usb2_attempt_next(o: Usb2HandoffOptions, a: Usb2Attempt, ok: bool) -> (n: AttemptNext)
    ensures
        n == spec_usb2_attempt_next(o, a, ok),
{
    let after_probe = if o.qmp_phase_requested {
        AttemptNext::Finished { ok: false }
    } else {
        AttemptNext::Attempt(Usb2Attempt::UsbStart)
    };
    match a {
        Usb2Attempt::VotePower => if o.gadget_probe {
            AttemptNext::Attempt(Usb2Attempt::GadgetHandoff)
        } else {
            after_probe
        },
        Usb2Attempt::GadgetHandoff => if ok {
            AttemptNext::Finished { ok: true }
        } else if o.post_runstop_signal {
            AttemptNext::Finished { ok: false }
        } else {
            after_probe
        },
        Usb2Attempt::UsbStart => if ok {
            AttemptNext::Finished { ok: true }
        } else if o.single_attempt {
            AttemptNext::Finished { ok: false }
        } else {
            AttemptNext::Attempt(Usb2Attempt::GadgetHandoffRetry)
        },
        Usb2Attempt::GadgetHandoffRetry => AttemptNext::Finished { ok },
    }
}

/// How the bare pull-up preparation ends.
#[derive(Clone, Copy, PartialEq, Eq, Debug)]
pub enum BareFinish {
    /// Set Run/Stop to `on` and report whether it took effect.
    RunStop { on: bool },
    /// Leave the firmware's Run/Stop state as it is.
    Preserve,
}

/// The bare pull-up preparation's decisions.
#[derive(Clone, Copy, PartialEq, Eq, Debug)]
pub struct BarePullupPlan {
    /// The checkpoint (1 after the session and PHY bits, 2 after the UTMI
    /// select, 3 after device mode and DCFG) where it stops with success.
    pub stop_at: Option<u32>,
    /// The DALEPENA value to write, if any.
    pub dalepena: Option<u32>,
    pub finish: BareFinish,
}

/// Plan the bare pull-up preparation: `connect` asserts the pull-up with
/// both EP0 directions enabled; otherwise the session is stopped, unless
/// the build preserves the firmware's Run/Stop state. A stop-after setting
/// of 1, 2 or 3 stops at that checkpoint.
pub fn bare_pullup_plan(connect: bool, preserve_runstop: bool, stop_after: Option<u32>) -> (p: BarePullupPlan)
    ensures
        p.stop_at == match stop_after {
            Some(n) => if 1 <= n <= 3 {
                Some(n)
            } else {
                None::<u32>
            },
            None => None::<u32>,
        },
        p.dalepena == if connect {
            Some(3u32)
        } else if !preserve_runstop {
            Some(0u32)
        } else {
            None::<u32>
        },
        p.finish == if connect {
            BareFinish::RunStop { on: true }
        } else if preserve_runstop {
            BareFinish::Preserve
        } else {
            BareFinish::RunStop { on: false }
        },
{
    let stop_at = match stop_after {
        Some(n) => if 1 <= n && n <= 3 {
            Some(n)
        } else {
            None
        },
        None => None,
    };
    let dalepena = if connect {
        Some(3u32)
    } else if !preserve_runstop {
        Some(0u32)
    } else {
        None
    };
    let finish = if connect {
        BareFinish::RunStop { on: true }
    } else if preserve_runstop {
        BareFinish::Preserve
    } else {
        BareFinish::RunStop { on: false }
    };
    BarePullupPlan { stop_at, dalepena, finish }
}

} // verus!
