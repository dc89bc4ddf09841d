//! The controller start (a cold platform start, a USB2 handoff from Fastboot
//! or a SuperSpeed handoff) as a step machine. The configuration selects
//! which steps run; the caller performs each step and reports its outcome;
//! the machine names the next step or the attempt's result, and tracks what
//! later steps depend on: whether the SuperSpeed PHY is ready, the DMA pool
//! is mapped, and EP0 is configured.

use vstd::prelude::*;

verus! {

/// How the controller is started.
#[derive(Clone, Copy, PartialEq, Eq, Debug)]
pub struct StartConfig {
    /// Bring up the SuperSpeed PHY.
    pub super_speed: bool,
    /// Soft-reset the controller core.
    pub reset_core: bool,
    /// Cold start: power, clocks and resets of the platform are applied;
    /// otherwise the boot firmware's live state is handed off.
    pub reset_platform: bool,
}

/// The start `init` performs: the controller in peripheral mode with
/// SuperSpeed, from a cold platform start that resets the core.
pub fn init() -> (c: StartConfig)
    ensures
        c == (StartConfig { super_speed: true, reset_core: true, reset_platform: true }),
{
    StartConfig { super_speed: true, reset_core: true, reset_platform: true }
}

/// The start `init_usb2_only` performs: the USB2 path alone, from a cold
/// platform start that resets the core.
pub fn init_usb2_only() -> (c: StartConfig)
    ensures
        c == (StartConfig { super_speed: false, reset_core: true, reset_platform: true }),
{
    StartConfig { super_speed: false, reset_core: true, reset_platform: true }
}

/// The start of the SuperSpeed handoff route: the firmware's platform
/// state is kept.
pub fn super_speed_handoff(reset_core: bool) -> (c: StartConfig)
    ensures
        c == (StartConfig { super_speed: true, reset_core, reset_platform: false }),
{
    StartConfig { super_speed: true, reset_core, reset_platform: false }
}

/// One step of the start.
#[derive(Clone, Copy, PartialEq, Eq, Structural, Debug)]
pub enum StartStep {
    /// Take the Apps-SMMU out of the DMA path where the build asks for it.
    BypassSmmu,
    /// Count the attempt, harvest the previous attempt's trace, forget any
    /// adopted mapping.
    BeginAttempt,
    /// Check the platform's USB power contract (reports whether it holds).
    CheckPowerContract,
    /// Vote the USB domain's CX level and interconnect bandwidth.
    VoteDomain,
    /// Apply the USB regulators, GDSC and performance state.
    ApplyPlatformPower,
    /// Clock branches, PHY reference clock and block resets; the USB2 PHY
    /// and, for SuperSpeed, the QMP PHY (reports whether QMP is ready).
    ColdPhyBringUp,
    /// Glue session votes and RAM clocks, power events, device mode, and
    /// capture of the firmware's RAM clock select.
    PrepareSession,
    /// The bare pull-up preparation of the USB2 handoff.
    BarePullup,
    /// Stop the firmware's running session (no core reset follows).
    StopDevice,
    /// Stop the firmware's running session before the QMP PHY is touched.
    StopDeviceBeforeQmp,
    /// Suspend the USB3 PIPE and reset the QMP PHY blocks.
    ResetQmpBlocks,
    /// Refresh the QMP regulator and reference clock, enable its branches.
    PowerQmp,
    /// Initialise the QMP PHY (reports whether it is ready).
    InitQmp,
    /// Whether the QMP phase probe stopped the bring-up (reports whether
    /// it did).
    QmpPhaseProbe,
    /// Fall back to the bare USB2 pull-up after the phase probe (reports
    /// the result of the attempt).
    FallbackBarePullup,
    /// Reset the core (the kind comes from the configuration and whether
    /// QMP is ready).
    ResetCore,
    /// Enable the mock UTMI clock branch.
    EnableUtmiClock,
    /// Global control, device mode, RAM clock select, USB2 interface and
    /// the USB 3.1 reference settings after the reset.
    ProgramGlobal,
    /// Clear the DMA objects after the reset.
    ClearDma,
    /// Reapply the USB2 PHY programming of the handoff.
    ReinitHsPhy,
    /// Reassert the glue's session votes, the UTMI select and the
    /// reference clock.
    ReassertGlue,
    /// Map the DMA pool at the Apps-SMMU.
    MapDma,
    /// PHY suspend bits, event ring, GSI event buffers, transfer state and
    /// DCFG.
    PublishEventRing,
    /// DEPSTARTCFG.
    StartConfig,
    /// Configure both EP0 directions.
    ConfigureEp0,
    /// Enable EP0, the device events, and prepare the SETUP TRB.
    EnableEndpoints,
    /// Route the controller interrupt and drain the event ring once.
    PollEvents,
    /// Program the gadget speed and the SuperSpeed PHY suspend policy.
    ConnectPrep,
    /// Evaluate the build's command-outcome condition, if it sets one
    /// (reports whether the condition holds; with none set it holds).
    CommandGate,
    /// Set Run/Stop.
    RunStop,
    /// Arm the first SETUP transfer within the host's first window.
    ArmSetup,
}

/// Where a start stands.
#[derive(Clone, Copy, PartialEq, Eq, Structural, Debug)]
pub struct StartProgress {
    pub step: StartStep,
    /// The SuperSpeed PHY is ready.
    pub qmp_ready: bool,
    /// The DMA pool is mapped.
    pub dma_mapped: bool,
    /// Both EP0 directions are configured.
    pub endpoints_ready: bool,
}

/// What follows a step.
#[derive(Clone, Copy, PartialEq, Eq, Structural, Debug)]
pub enum StartNext {
    Step(StartProgress),
    /// The attempt is over with this result.
    Finished { ok: bool },
    /// The command-outcome condition failed: park, then take the recovery
    /// reset.
    ParkAfterGateFailure,
}

/// The position of a step in the order.
pub open spec fn start_index(s: StartStep) -> nat {
    match s {
        StartStep::BypassSmmu => 0,
        StartStep::BeginAttempt => 1,
        StartStep::CheckPowerContract => 2,
        StartStep::VoteDomain => 3,
        StartStep::ApplyPlatformPower => 4,
        StartStep::ColdPhyBringUp => 5,
        StartStep::PrepareSession => 6,
        StartStep::BarePullup => 7,
        StartStep::StopDevice => 8,
        StartStep::StopDeviceBeforeQmp => 9,
        StartStep::ResetQmpBlocks => 10,
        StartStep::PowerQmp => 11,
        StartStep::InitQmp => 12,
        StartStep::QmpPhaseProbe => 13,
        StartStep::FallbackBarePullup => 14,
        StartStep::ResetCore => 15,
        StartStep::EnableUtmiClock => 16,
        StartStep::ProgramGlobal => 17,
        StartStep::ClearDma => 18,
        StartStep::ReinitHsPhy => 19,
        StartStep::ReassertGlue => 20,
        StartStep::MapDma => 21,
        StartStep::PublishEventRing => 22,
        StartStep::StartConfig => 23,
        StartStep::ConfigureEp0 => 24,
        StartStep::EnableEndpoints => 25,
        StartStep::PollEvents => 26,
        StartStep::ConnectPrep => 27,
        StartStep::CommandGate => 28,
        StartStep::RunStop => 29,
        StartStep::ArmSetup => 30,
    }
}

/// The number of positions.
pub open spec fn start_count() -> nat {
    31
}

/// The step at a position (positions past the end name the last step).
pub open spec fn start_step_at(i: nat) -> StartStep {
    if i == 0 {
        StartStep::BypassSmmu
    } else if i == 1 {
        StartStep::BeginAttempt
    } else if i == 2 {
        StartStep::CheckPowerContract
    } else if i == 3 {
        StartStep::VoteDomain
    } else if i == 4 {
        StartStep::ApplyPlatformPower
    } else if i == 5 {
        StartStep::ColdPhyBringUp
    } else if i == 6 {
        StartStep::PrepareSession
    } else if i == 7 {
        StartStep::BarePullup
    } else if i == 8 {
        StartStep::StopDevice
    } else if i == 9 {
        StartStep::StopDeviceBeforeQmp
    } else if i == 10 {
        StartStep::ResetQmpBlocks
    } else if i == 11 {
        StartStep::PowerQmp
    } else if i == 12 {
        StartStep::InitQmp
    } else if i == 13 {
        StartStep::QmpPhaseProbe
    } else if i == 14 {
        StartStep::FallbackBarePullup
    } else if i == 15 {
        StartStep::ResetCore
    } else if i == 16 {
        StartStep::EnableUtmiClock
    } else if i == 17 {
        StartStep::ProgramGlobal
    } else if i == 18 {
        StartStep::ClearDma
    } else if i == 19 {
        StartStep::ReinitHsPhy
    } else if i == 20 {
        StartStep::ReassertGlue
    } else if i == 21 {
        StartStep::MapDma
    } else if i == 22 {
        StartStep::PublishEventRing
    } else if i == 23 {
        StartStep::StartConfig
    } else if i == 24 {
        StartStep::ConfigureEp0
    } else if i == 25 {
        StartStep::EnableEndpoints
    } else if i == 26 {
        StartStep::PollEvents
    } else if i == 27 {
        StartStep::ConnectPrep
    } else if i == 28 {
        StartStep::CommandGate
    } else if i == 29 {
        StartStep::RunStop
    } else {
        StartStep::ArmSetup
    }
}

/// Whether the firmware's live state is handed off with SuperSpeed: the
/// QMP PHY is then reset and initialised in place.
pub open spec fn ss_handoff(c: StartConfig) -> bool {
    c.super_speed && !c.reset_platform
}

/// Whether a step runs in the order under a configuration (the fallback
/// runs only from the phase probe).
pub open spec fn step_runs(c: StartConfig, s: StartStep) -> bool {
    match s {
        StartStep::ApplyPlatformPower | StartStep::ColdPhyBringUp => c.reset_platform,
        StartStep::BarePullup | StartStep::EnableUtmiClock | StartStep::ReinitHsPhy => !c.super_speed
            && !c.reset_platform,
        StartStep::StopDevice => !c.reset_core,
        StartStep::StopDeviceBeforeQmp => ss_handoff(c) && c.reset_core,
        StartStep::ResetQmpBlocks | StartStep::PowerQmp | StartStep::InitQmp
        | StartStep::QmpPhaseProbe => ss_handoff(c),
        StartStep::FallbackBarePullup => false,
        StartStep::ResetCore | StartStep::ClearDma => c.reset_core,
        _ => true,
    }
}

/// Whether a step's failure ends the attempt.
pub open spec fn step_fatal(c: StartConfig, s: StartStep) -> bool {
    match s {
        StartStep::BypassSmmu | StartStep::ApplyPlatformPower | StartStep::StopDevice
        | StartStep::StopDeviceBeforeQmp | StartStep::ResetQmpBlocks | StartStep::PowerQmp
        | StartStep::ResetCore | StartStep::MapDma | StartStep::StartConfig
        | StartStep::ConfigureEp0 | StartStep::RunStop => true,
        StartStep::CheckPowerContract => c.reset_platform,
        _ => false,
    }
}

/// The first step at position `i` or later that runs.
pub open spec fn next_running(c: StartConfig, i: nat) -> StartStep
    decreases start_count() - i,
{
    if i + 1 >= start_count() || step_runs(c, start_step_at(i)) {
        start_step_at(i)
    } else {
        next_running(c, i + 1)
    }
}

/// The progress once step `p.step` reported `ok` (before advancing).
pub open spec fn noted(c: StartConfig, p: StartProgress, ok: bool) -> StartProgress {
    match p.step {
        StartStep::ColdPhyBringUp => StartProgress { qmp_ready: c.super_speed && ok, ..p },
        StartStep::InitQmp => StartProgress { qmp_ready: ok, ..p },
        StartStep::MapDma => StartProgress { dma_mapped: true, ..p },
        StartStep::ConfigureEp0 => StartProgress { endpoints_ready: true, ..p },
        _ => p,
    }
}

/// Advance to the next step that runs.
pub open spec fn advanced(c: StartConfig, p: StartProgress) -> StartNext {
    StartNext::Step(StartProgress { step: next_running(c, start_index(p.step) + 1), ..p })
}

/// What follows step `p.step`, which reported `ok`.
pub open spec fn spec_start_next(c: StartConfig, p: StartProgress, ok: bool) -> StartNext {
    match p.step {
        StartStep::QmpPhaseProbe => if ok {
            StartNext::Step(StartProgress { step: StartStep::FallbackBarePullup, ..p })
        } else if !p.qmp_ready {
            StartNext::Finished { ok: false }
        } else {
            advanced(c, p)
        },
        StartStep::FallbackBarePullup => StartNext::Finished { ok },
        StartStep::CommandGate => if ok {
            advanced(c, p)
        } else {
            StartNext::ParkAfterGateFailure
        },
        StartStep::ArmSetup => StartNext::Finished { ok: true },
        _ => if step_fatal(c, p.step) && !ok {
            StartNext::Finished { ok: false }
        } else {
            advanced(c, noted(c, p, ok))
        },
    }
}

/// The attempt count after `init_calls` earlier attempts (wrapping), and
/// whether this attempt harvests the previous one's trace: every attempt
/// but the first, since the first finds the trace of another boot.
pub open spec fn spec_begin_attempt(init_calls: u32) -> (u32, bool) {
    let calls = if init_calls == 0xffff_ffffu32 {
        0u32
    } else {
        (init_calls + 1) as u32
    };
    (calls, calls > 1)
}

/// Count an attempt (the `BeginAttempt` step) and decide the harvest.
pub fn begin_attempt(init_calls: u32) -> (r: (u32, bool))
    ensures
        r == spec_begin_attempt(init_calls),
{
    let calls = if init_calls == u32::MAX {
        0
    } else {
        init_calls + 1
    };
    (calls, calls > 1)
}

/// The progress at the start.
pub open spec fn spec_start_begin() -> StartProgress {
    StartProgress {
        step: StartStep::BypassSmmu,
        qmp_ready: false,
        dma_mapped: false,
        endpoints_ready: false,
    }
}

/// The progress at the start.
pub fn start_begin() -> (p: StartProgress)
    ensures
        p == spec_start_begin(),
{
    StartProgress {
        step: StartStep::BypassSmmu,
        qmp_ready: false,
        dma_mapped: false,
        endpoints_ready: false,
    }
}

fn step_at_exec(i: u32) -> (s: StartStep)
    ensures
        s == start_step_at(i as nat),
{
    if i == 0 {
        StartStep::BypassSmmu
    } else if i == 1 {
        StartStep::BeginAttempt
    } else if i == 2 {
        StartStep::CheckPowerContract
    } else if i == 3 {
        StartStep::VoteDomain
    } else if i == 4 {
        StartStep::ApplyPlatformPower
    } else if i == 5 {
        StartStep::ColdPhyBringUp
    } else if i == 6 {
        StartStep::PrepareSession
    } else if i == 7 {
        StartStep::BarePullup
    } else if i == 8 {
        StartStep::StopDevice
    } else if i == 9 {
        StartStep::StopDeviceBeforeQmp
    } else if i == 10 {
        StartStep::ResetQmpBlocks
    } else if i == 11 {
        StartStep::PowerQmp
    } else if i == 12 {
        StartStep::InitQmp
    } else if i == 13 {
        StartStep::QmpPhaseProbe
    } else if i == 14 {
        StartStep::FallbackBarePullup
    } else if i == 15 {
        StartStep::ResetCore
    } else if i == 16 {
        StartStep::EnableUtmiClock
    } else if i == 17 {
        StartStep::ProgramGlobal
    } else if i == 18 {
        StartStep::ClearDma
    } else if i == 19 {
        StartStep::ReinitHsPhy
    } else if i == 20 {
        StartStep::ReassertGlue
    } else if i == 21 {
        StartStep::MapDma
    } else if i == 22 {
        StartStep::PublishEventRing
    } else if i == 23 {
        StartStep::StartConfig
    } else if i == 24 {
        StartStep::ConfigureEp0
    } else if i == 25 {
        StartStep::EnableEndpoints
    } else if i == 26 {
        StartStep::PollEvents
    } else if i == 27 {
        StartStep::ConnectPrep
    } else if i == 28 {
        StartStep::CommandGate
    } else if i == 29 {
        StartStep::RunStop
    } else {
        StartStep::ArmSetup
    }
}

fn index_exec(s: StartStep) -> (i: u32)
    ensures
        i == start_index(s),
{
    match s {
        StartStep::BypassSmmu => 0,
        StartStep::BeginAttempt => 1,
        StartStep::CheckPowerContract => 2,
        StartStep::VoteDomain => 3,
        StartStep::ApplyPlatformPower => 4,
        StartStep::ColdPhyBringUp => 5,
        StartStep::PrepareSession => 6,
        StartStep::BarePullup => 7,
        StartStep::StopDevice => 8,
        StartStep::StopDeviceBeforeQmp => 9,
        StartStep::ResetQmpBlocks => 10,
        StartStep::PowerQmp => 11,
        StartStep::InitQmp => 12,
        StartStep::QmpPhaseProbe => 13,
        StartStep::FallbackBarePullup => 14,
        StartStep::ResetCore => 15,
        StartStep::EnableUtmiClock => 16,
        StartStep::ProgramGlobal => 17,
        StartStep::ClearDma => 18,
        StartStep::ReinitHsPhy => 19,
        StartStep::ReassertGlue => 20,
        StartStep::MapDma => 21,
        StartStep::PublishEventRing => 22,
        StartStep::StartConfig => 23,
        StartStep::ConfigureEp0 => 24,
        StartStep::EnableEndpoints => 25,
        StartStep::PollEvents => 26,
        StartStep::ConnectPrep => 27,
        StartStep::CommandGate => 28,
        StartStep::RunStop => 29,
        StartStep::ArmSetup => 30,
    }
}

fn runs_exec(c: StartConfig, s: StartStep) -> (r: bool)
    ensures
        r == step_runs(c, s),
{
    let ss_handoff = c.super_speed && !c.reset_platform;
    match s {
        StartStep::ApplyPlatformPower | StartStep::ColdPhyBringUp => c.reset_platform,
        StartStep::BarePullup | StartStep::EnableUtmiClock | StartStep::ReinitHsPhy => !c.super_speed
            && !c.reset_platform,
        StartStep::StopDevice => !c.reset_core,
        StartStep::StopDeviceBeforeQmp => ss_handoff && c.reset_core,
        StartStep::ResetQmpBlocks | StartStep::PowerQmp | StartStep::InitQmp
        | StartStep::QmpPhaseProbe => ss_handoff,
        StartStep::FallbackBarePullup => false,
        StartStep::ResetCore | StartStep::ClearDma => c.reset_core,
        _ => true,
    }
}

fn fatal_exec(c: StartConfig, s: StartStep) -> (r: bool)
    ensures
        r == step_fatal(c, s),
{
    match s {
        StartStep::BypassSmmu | StartStep::ApplyPlatformPower | StartStep::StopDevice
        | StartStep::StopDeviceBeforeQmp | StartStep::ResetQmpBlocks | StartStep::PowerQmp
        | StartStep::ResetCore | StartStep::MapDma | StartStep::StartConfig
        | StartStep::ConfigureEp0 | StartStep::RunStop => true,
        StartStep::CheckPowerContract => c.reset_platform,
        _ => false,
    }
}

fn next_running_exec(c: StartConfig, i: u32) -> (s: StartStep)
    requires
        i < start_count(),
    ensures
        s == next_running(c, i as nat),
    decreases start_count() - i,
{
    let s = step_at_exec(i);
    if i + 1 >= 31 || runs_exec(c, s) {
        s
    } else {
        next_running_exec(c, i + 1)
    }
}

/// What follows step `p.step` of a start configured by `c`, which reported
/// `ok` (ignored by steps that report nothing).
pub fn start_next(c: StartConfig, p: StartProgress, ok: bool) -> (n: StartNext)
    ensures
        n == spec_start_next(c, p, ok),
{
    match p.step {
        StartStep::QmpPhaseProbe => {
            if ok {
                return StartNext::Step(StartProgress { step: StartStep::FallbackBarePullup, ..p });
            }
            if !p.qmp_ready {
                return StartNext::Finished { ok: false };
            }
        },
        StartStep::FallbackBarePullup => {
            return StartNext::Finished { ok };
        },
        StartStep::CommandGate => {
            if !ok {
                return StartNext::ParkAfterGateFailure;
            }
        },
        StartStep::ArmSetup => {
            return StartNext::Finished { ok: true };
        },
        _ => {
            if fatal_exec(c, p.step) && !ok {
                return StartNext::Finished { ok: false };
            }
        },
    }
    let q = match p.step {
        StartStep::ColdPhyBringUp => StartProgress { qmp_ready: c.super_speed && ok, ..p },
        StartStep::InitQmp => StartProgress { qmp_ready: ok, ..p },
        StartStep::MapDma => StartProgress { dma_mapped: true, ..p },
        StartStep::ConfigureEp0 => StartProgress { endpoints_ready: true, ..p },
        _ => p,
    };
    let next = next_running_exec(c, index_exec(q.step) + 1);
    StartNext::Step(StartProgress { step: next, ..q })
}

/// What holds of every progress a start reaches.
pub open spec fn start_invariant(c: StartConfig, p: StartProgress) -> bool {
    &&& step_runs(c, p.step) || p.step == StartStep::FallbackBarePullup
    &&& p.step == StartStep::FallbackBarePullup ==> ss_handoff(c)
    &&& !c.super_speed ==> !p.qmp_ready
    &&& ss_handoff(c) && start_index(p.step) > start_index(StartStep::QmpPhaseProbe) && p.step
        != StartStep::FallbackBarePullup ==> p.qmp_ready
    &&& start_index(p.step) > start_index(StartStep::MapDma) ==> p.dma_mapped
    &&& start_index(p.step) > start_index(StartStep::ConfigureEp0) ==> p.endpoints_ready
}

proof fn lemma_index_at(i: nat)
    requires
        i < start_count(),
    ensures
        start_index(start_step_at(i)) == i,
{
}

proof fn lemma_next_running(c: StartConfig, i: nat)
    requires
        i < start_count(),
    ensures
        start_index(next_running(c, i)) >= i,
        start_index(next_running(c, i)) < start_count(),
        step_runs(c, next_running(c, i)),
        forall|j: nat| i <= j < start_count() && #[trigger] step_runs(c, start_step_at(j)) ==> start_index(
            next_running(c, i),
        ) <= j,
    decreases start_count() - i,
{
    lemma_index_at(i);
    if !(i + 1 >= start_count() || step_runs(c, start_step_at(i))) {
        lemma_next_running(c, i + 1);
    }
}

/// Every progress a start reaches keeps the invariant: it begins there, and
/// each step keeps it. So a start connects (Run/Stop) only with the DMA pool
/// mapped and both EP0 directions configured; a USB2 start never claims the
/// SuperSpeed PHY; and a SuperSpeed handoff goes past its PHY bring-up only
/// with the QMP PHY ready (or by the USB2 fallback).
pub proof fn lemma_start_invariant(c: StartConfig, p: StartProgress, ok: bool)
    ensures
        start_invariant(c, spec_start_begin()),
        start_invariant(c, p) ==> match spec_start_next(c, p, ok) {
            StartNext::Step(q) => start_invariant(c, q),
            _ => true,
        },
        start_invariant(c, p) && p.step == StartStep::RunStop ==> p.dma_mapped && p.endpoints_ready
            && (c.super_speed == p.qmp_ready || c.reset_platform),
{
    if start_invariant(c, p) {
        if start_index(p.step) + 1 < start_count() {
            lemma_next_running(c, start_index(p.step) + 1);
            lemma_index_at(start_index(StartStep::QmpPhaseProbe));
            lemma_index_at(start_index(StartStep::MapDma));
            lemma_index_at(start_index(StartStep::ConfigureEp0));
            lemma_index_at(start_index(StartStep::ProgramGlobal));
            assert(step_runs(c, start_step_at(start_index(StartStep::MapDma))));
            assert(step_runs(c, start_step_at(start_index(StartStep::ConfigureEp0))));
            assert(step_runs(c, start_step_at(start_index(StartStep::ProgramGlobal))));
            if ss_handoff(c) {
                assert(step_runs(c, start_step_at(start_index(StartStep::QmpPhaseProbe))));
            }
        }
    }
}

} // verus!
