//! The staged USB2 handoff probe that rebuilds EP0 on the controller
//! Fastboot leaves running, as a step machine. The build's options select
//! which steps run; its stop switches select the numbered boundaries where
//! the probe stops; a failed step ends the attempt with its stage number.
//! The caller performs each step and reports whether it succeeded.

use vstd::prelude::*;
use crate::usb::{gadget_handoff_stop_selected, stage_selected};

verus! {

/// The build options that shape the probe's sequence.
#[derive(Clone, Copy, PartialEq, Eq, Debug)]
pub struct ReuseConfig {
    /// The stage-stop switches (bit `n` stops after stage `n`).
    pub stop_stages: u32,
    /// Reuse the event ring Fastboot programmed.
    pub reuse_fastboot_dma: bool,
    /// Reset the controller block the way Android does before the core.
    pub android_block_reset: bool,
    /// Keep the core: no device soft reset, no PHY re-initialisation.
    pub preserve_core: bool,
    /// Allocate every endpoint's transfer resource after DEPSTARTCFG.
    pub android_resource_order: bool,
    /// Allocate no transfer resource for EP0 OUT.
    pub no_transfer_resource: bool,
    /// Queue and start the first SETUP between the two EP0 directions.
    pub xbl_between_ep0: bool,
    /// Queue the SETUP request after EP0 is configured.
    pub xbl_deferred_setup: bool,
    /// Leave the first SETUP to a later connection event.
    pub defer_setup: bool,
}

/// One step of the probe.
#[derive(Clone, Copy, PartialEq, Eq, Structural, Debug)]
pub enum ReuseStep {
    /// Take the Apps-SMMU out of the DMA path where the build asks for it.
    BypassSmmu,
    /// Record the firmware's clock and PHY state.
    SnapshotClocks,
    StopStage1,
    /// Read and check Fastboot's event-ring address.
    CaptureFastbootEventRing,
    /// Capture the firmware's RAM clock select.
    CaptureRamClock,
    /// The bare pull-up preparation (its halt readback may time out).
    BarePullupPrep,
    /// Android's controller block reset.
    AndroidBlockReset,
    /// The device soft reset.
    DeviceReset,
    StopStage2,
    /// Clock branches, reference and UTMI clocks, stabilisation delay.
    ClockPrep,
    /// Global control, device mode, PHY interface and PHY re-initialisation.
    ProgramController,
    /// Map the DMA pool at the Apps-SMMU.
    MapDma,
    StopStage3,
    /// Clear and publish the event ring and EP0 objects, reset the driver
    /// state, program DCFG and clear DALEPENA.
    PublishEventRing,
    /// DEPSTARTCFG.
    StartConfig,
    StopStage4,
    /// Allocate every endpoint's transfer resource.
    PreallocateResources,
    /// Configure EP0 OUT.
    ConfigureEp0Out,
    StopStage9,
    /// Allocate EP0 OUT's transfer resource.
    Ep0OutResource,
    StopStage10,
    /// Enable EP0 OUT in DALEPENA.
    EnableEp0Out,
    /// Queue the SETUP request between the EP0 pairs.
    XblQueueRequest,
    /// Prepare and start the SETUP transfer between the EP0 pairs.
    XblStartSetup,
    /// Start the queued SETUP request.
    XblStartRequest,
    StopStage8,
    /// Configure EP0 IN.
    ConfigureEp0In,
    /// Enable EP0 IN, program DEVTEN, mark the endpoints ready.
    EnableEp0In,
    /// Queue the SETUP request after EP0 is configured.
    QueueSetupRequest,
    StopStage5,
    /// Prepare the SETUP TRB and apply the EP0 TX FIFO fix.
    PrepareSetupTrb,
    StopStage11,
    /// Start the SETUP transfer.
    StartSetup,
    /// Route the controller interrupt and drain the event ring once.
    PollEvents,
    StopStage12,
    StopStage6,
    /// Reassert the session and program the gadget speed.
    ConnectPrep,
    /// Set Run/Stop (a readback timeout is recorded, not fatal).
    RunStop,
    /// Arm the SETUP within the host's first window.
    ArmWindow,
    StopStage7,
}

/// Where the probe stands.
#[derive(Clone, Copy, PartialEq, Eq, Structural, Debug)]
pub struct ReuseProgress {
    pub step: ReuseStep,
    /// Both EP0 directions are configured.
    pub endpoints_ready: bool,
    /// A SETUP transfer is armed.
    pub setup_armed: bool,
}

/// What follows a step.
#[derive(Clone, Copy, PartialEq, Eq, Structural, Debug)]
pub enum ReuseNext {
    Step(ReuseProgress),
    /// The probe is over with this result.
    Finished { ok: bool },
    /// A step failed: the stage's failure marker and retry follow, and the
    /// probe's result is failure.
    FailedAtStage { stage: u32 },
}

/// The position of a step.
pub open spec fn reuse_index(s: ReuseStep) -> nat {
    match s {
        ReuseStep::BypassSmmu => 0,
        ReuseStep::SnapshotClocks => 1,
        ReuseStep::StopStage1 => 2,
        ReuseStep::CaptureFastbootEventRing => 3,
        ReuseStep::CaptureRamClock => 4,
        ReuseStep::BarePullupPrep => 5,
        ReuseStep::AndroidBlockReset => 6,
        ReuseStep::DeviceReset => 7,
        ReuseStep::StopStage2 => 8,
        ReuseStep::ClockPrep => 9,
        ReuseStep::ProgramController => 10,
        ReuseStep::MapDma => 11,
        ReuseStep::StopStage3 => 12,
        ReuseStep::PublishEventRing => 13,
        ReuseStep::StartConfig => 14,
        ReuseStep::StopStage4 => 15,
        ReuseStep::PreallocateResources => 16,
        ReuseStep::ConfigureEp0Out => 17,
        ReuseStep::StopStage9 => 18,
        ReuseStep::Ep0OutResource => 19,
        ReuseStep::StopStage10 => 20,
        ReuseStep::EnableEp0Out => 21,
        ReuseStep::XblQueueRequest => 22,
        ReuseStep::XblStartSetup => 23,
        ReuseStep::XblStartRequest => 24,
        ReuseStep::StopStage8 => 25,
        ReuseStep::ConfigureEp0In => 26,
        ReuseStep::EnableEp0In => 27,
        ReuseStep::QueueSetupRequest => 28,
        ReuseStep::StopStage5 => 29,
        ReuseStep::PrepareSetupTrb => 30,
        ReuseStep::StopStage11 => 31,
        ReuseStep::StartSetup => 32,
        ReuseStep::PollEvents => 33,
        ReuseStep::StopStage12 => 34,
        ReuseStep::StopStage6 => 35,
        ReuseStep::ConnectPrep => 36,
        ReuseStep::RunStop => 37,
        ReuseStep::ArmWindow => 38,
        ReuseStep::StopStage7 => 39,
    }
}

/// The number of positions.
pub open spec fn reuse_count() -> nat {
    40
}

/// The step at a position (positions past the end name the last step).
pub open spec fn reuse_step_at(i: nat) -> ReuseStep {
    if i == 0 { ReuseStep::BypassSmmu }
    else if i == 1 { ReuseStep::SnapshotClocks }
    else if i == 2 { ReuseStep::StopStage1 }
    else if i == 3 { ReuseStep::CaptureFastbootEventRing }
    else if i == 4 { ReuseStep::CaptureRamClock }
    else if i == 5 { ReuseStep::BarePullupPrep }
    else if i == 6 { ReuseStep::AndroidBlockReset }
    else if i == 7 { ReuseStep::DeviceReset }
    else if i == 8 { ReuseStep::StopStage2 }
    else if i == 9 { ReuseStep::ClockPrep }
    else if i == 10 { ReuseStep::ProgramController }
    else if i == 11 { ReuseStep::MapDma }
    else if i == 12 { ReuseStep::StopStage3 }
    else if i == 13 { ReuseStep::PublishEventRing }
    else if i == 14 { ReuseStep::StartConfig }
    else if i == 15 { ReuseStep::StopStage4 }
    else if i == 16 { ReuseStep::PreallocateResources }
    else if i == 17 { ReuseStep::ConfigureEp0Out }
    else if i == 18 { ReuseStep::StopStage9 }
    else if i == 19 { ReuseStep::Ep0OutResource }
    else if i == 20 { ReuseStep::StopStage10 }
    else if i == 21 { ReuseStep::EnableEp0Out }
    else if i == 22 { ReuseStep::XblQueueRequest }
    else if i == 23 { ReuseStep::XblStartSetup }
    else if i == 24 { ReuseStep::XblStartRequest }
    else if i == 25 { ReuseStep::StopStage8 }
    else if i == 26 { ReuseStep::ConfigureEp0In }
    else if i == 27 { ReuseStep::EnableEp0In }
    else if i == 28 { ReuseStep::QueueSetupRequest }
    else if i == 29 { ReuseStep::StopStage5 }
    else if i == 30 { ReuseStep::PrepareSetupTrb }
    else if i == 31 { ReuseStep::StopStage11 }
    else if i == 32 { ReuseStep::StartSetup }
    else if i == 33 { ReuseStep::PollEvents }
    else if i == 34 { ReuseStep::StopStage12 }
    else if i == 35 { ReuseStep::StopStage6 }
    else if i == 36 { ReuseStep::ConnectPrep }
    else if i == 37 { ReuseStep::RunStop }
    else if i == 38 { ReuseStep::ArmWindow }
    else { ReuseStep::StopStage7 }
}

/// The stage a stop boundary belongs to.
pub open spec fn stop_stage(s: ReuseStep) -> Option<u32> {
    match s {
        ReuseStep::StopStage1 => Some(1u32),
        ReuseStep::StopStage2 => Some(2u32),
        ReuseStep::StopStage3 => Some(3u32),
        ReuseStep::StopStage4 => Some(4u32),
        ReuseStep::StopStage5 => Some(5u32),
        ReuseStep::StopStage6 => Some(6u32),
        ReuseStep::StopStage7 => Some(7u32),
        ReuseStep::StopStage8 => Some(8u32),
        ReuseStep::StopStage9 => Some(9u32),
        ReuseStep::StopStage10 => Some(10u32),
        ReuseStep::StopStage11 => Some(11u32),
        ReuseStep::StopStage12 => Some(12u32),
        _ => None,
    }
}

/// Whether a step runs under the build's options (a stop boundary runs
/// when its stage is selected).
pub open spec fn reuse_runs(c: ReuseConfig, s: ReuseStep) -> bool {
    match stop_stage(s) {
        Some(stage) => stage_selected(c.stop_stages, stage),
        None => match s {
            ReuseStep::CaptureFastbootEventRing => c.reuse_fastboot_dma,
            ReuseStep::AndroidBlockReset => c.android_block_reset,
            ReuseStep::DeviceReset => !c.preserve_core,
            ReuseStep::PreallocateResources => c.android_resource_order && !c.no_transfer_resource,
            ReuseStep::Ep0OutResource => !c.no_transfer_resource && !c.android_resource_order,
            ReuseStep::XblQueueRequest | ReuseStep::XblStartSetup | ReuseStep::XblStartRequest => c.xbl_between_ep0,
            ReuseStep::QueueSetupRequest => c.xbl_deferred_setup || c.xbl_between_ep0,
            ReuseStep::StartSetup => !c.xbl_between_ep0 && !c.defer_setup,
            _ => true,
        },
    }
}

/// The stage a step's failure is reported at; 0 for a plain failure, and
/// `None` for steps whose failure does not end the probe.
pub open spec fn failure_stage(s: ReuseStep) -> Option<u32> {
    match s {
        ReuseStep::BypassSmmu => Some(0u32),
        ReuseStep::CaptureFastbootEventRing => Some(1u32),
        ReuseStep::AndroidBlockReset | ReuseStep::DeviceReset => Some(2u32),
        ReuseStep::MapDma => Some(3u32),
        ReuseStep::StartConfig => Some(4u32),
        ReuseStep::PreallocateResources | ReuseStep::ConfigureEp0Out | ReuseStep::Ep0OutResource
        | ReuseStep::XblQueueRequest | ReuseStep::XblStartRequest | ReuseStep::ConfigureEp0In
        | ReuseStep::QueueSetupRequest => Some(5u32),
        ReuseStep::XblStartSetup | ReuseStep::StartSetup => Some(12u32),
        _ => None,
    }
}

/// The first step at position `i` or later that runs, if any.
pub open spec fn reuse_next_running(c: ReuseConfig, i: nat) -> Option<ReuseStep>
    decreases reuse_count() - i,
{
    if i >= reuse_count() {
        None
    } else if reuse_runs(c, reuse_step_at(i)) {
        Some(reuse_step_at(i))
    } else {
        reuse_next_running(c, i + 1)
    }
}

/// The progress once step `p.step` succeeded (before advancing).
pub open spec fn reuse_noted(p: ReuseProgress) -> ReuseProgress {
    match p.step {
        ReuseStep::XblStartRequest | ReuseStep::StartSetup => ReuseProgress { setup_armed: true, ..p },
        ReuseStep::EnableEp0In => ReuseProgress { endpoints_ready: true, ..p },
        _ => p,
    }
}

/// Advance to the next step that runs, or finish successfully.
pub open spec fn reuse_advanced(c: ReuseConfig, p: ReuseProgress) -> ReuseNext {
    match reuse_next_running(c, reuse_index(p.step) + 1) {
        Some(s) => ReuseNext::Step(ReuseProgress { step: s, ..p }),
        None => ReuseNext::Finished { ok: true },
    }
}

/// What follows step `p.step`, which reported `ok`.
pub open spec fn spec_reuse_next(c: ReuseConfig, p: ReuseProgress, ok: bool) -> ReuseNext {
    match stop_stage(p.step) {
        Some(stage) => ReuseNext::Finished { ok: stage == 1 },
        None => match failure_stage(p.step) {
            Some(stage) => if ok {
                reuse_advanced(c, reuse_noted(p))
            } else if stage == 0 {
                ReuseNext::Finished { ok: false }
            } else {
                ReuseNext::FailedAtStage { stage }
            },
            None => reuse_advanced(c, reuse_noted(p)),
        },
    }
}

/// The progress at the start.
pub open spec fn spec_reuse_begin() -> ReuseProgress {
    ReuseProgress { step: ReuseStep::BypassSmmu, endpoints_ready: false, setup_armed: false }
}

/// The progress at the start.
pub fn reuse_begin() -> (p: ReuseProgress)
    ensures
        p == spec_reuse_begin(),
{
    ReuseProgress { step: ReuseStep::BypassSmmu, endpoints_ready: false, setup_armed: false }
}

fn reuse_step_at_exec(i: u32) -> (s: ReuseStep)
    ensures
        s == reuse_step_at(i as nat),
{
    if i == 0 { ReuseStep::BypassSmmu }
    else if i == 1 { ReuseStep::SnapshotClocks }
    else if i == 2 { ReuseStep::StopStage1 }
    else if i == 3 { ReuseStep::CaptureFastbootEventRing }
    else if i == 4 { ReuseStep::CaptureRamClock }
    else if i == 5 { ReuseStep::BarePullupPrep }
    else if i == 6 { ReuseStep::AndroidBlockReset }
    else if i == 7 { ReuseStep::DeviceReset }
    else if i == 8 { ReuseStep::StopStage2 }
    else if i == 9 { ReuseStep::ClockPrep }
    else if i == 10 { ReuseStep::ProgramController }
    else if i == 11 { ReuseStep::MapDma }
    else if i == 12 { ReuseStep::StopStage3 }
    else if i == 13 { ReuseStep::PublishEventRing }
    else if i == 14 { ReuseStep::StartConfig }
    else if i == 15 { ReuseStep::StopStage4 }
    else if i == 16 { ReuseStep::PreallocateResources }
    else if i == 17 { ReuseStep::ConfigureEp0Out }
    else if i == 18 { ReuseStep::StopStage9 }
    else if i == 19 { ReuseStep::Ep0OutResource }
    else if i == 20 { ReuseStep::StopStage10 }
    else if i == 21 { ReuseStep::EnableEp0Out }
    else if i == 22 { ReuseStep::XblQueueRequest }
    else if i == 23 { ReuseStep::XblStartSetup }
    else if i == 24 { ReuseStep::XblStartRequest }
    else if i == 25 { ReuseStep::StopStage8 }
    else if i == 26 { ReuseStep::ConfigureEp0In }
    else if i == 27 { ReuseStep::EnableEp0In }
    else if i == 28 { ReuseStep::QueueSetupRequest }
    else if i == 29 { ReuseStep::StopStage5 }
    else if i == 30 { ReuseStep::PrepareSetupTrb }
    else if i == 31 { ReuseStep::StopStage11 }
    else if i == 32 { ReuseStep::StartSetup }
    else if i == 33 { ReuseStep::PollEvents }
    else if i == 34 { ReuseStep::StopStage12 }
    else if i == 35 { ReuseStep::StopStage6 }
    else if i == 36 { ReuseStep::ConnectPrep }
    else if i == 37 { ReuseStep::RunStop }
    else if i == 38 { ReuseStep::ArmWindow }
    else { ReuseStep::StopStage7 }
}

fn reuse_index_exec(s: ReuseStep) -> (i: u32)
    ensures
        i == reuse_index(s),
{
    match s {
        ReuseStep::BypassSmmu => 0,
        ReuseStep::SnapshotClocks => 1,
        ReuseStep::StopStage1 => 2,
        ReuseStep::CaptureFastbootEventRing => 3,
        ReuseStep::CaptureRamClock => 4,
        ReuseStep::BarePullupPrep => 5,
        ReuseStep::AndroidBlockReset => 6,
        ReuseStep::DeviceReset => 7,
        ReuseStep::StopStage2 => 8,
        ReuseStep::ClockPrep => 9,
        ReuseStep::ProgramController => 10,
        ReuseStep::MapDma => 11,
        ReuseStep::StopStage3 => 12,
        ReuseStep::PublishEventRing => 13,
        ReuseStep::StartConfig => 14,
        ReuseStep::StopStage4 => 15,
        ReuseStep::PreallocateResources => 16,
        ReuseStep::ConfigureEp0Out => 17,
        ReuseStep::StopStage9 => 18,
        ReuseStep::Ep0OutResource => 19,
        ReuseStep::StopStage10 => 20,
        ReuseStep::EnableEp0Out => 21,
        ReuseStep::XblQueueRequest => 22,
        ReuseStep::XblStartSetup => 23,
        ReuseStep::XblStartRequest => 24,
        ReuseStep::StopStage8 => 25,
        ReuseStep::ConfigureEp0In => 26,
        ReuseStep::EnableEp0In => 27,
        ReuseStep::QueueSetupRequest => 28,
        ReuseStep::StopStage5 => 29,
        ReuseStep::PrepareSetupTrb => 30,
        ReuseStep::StopStage11 => 31,
        ReuseStep::StartSetup => 32,
        ReuseStep::PollEvents => 33,
        ReuseStep::StopStage12 => 34,
        ReuseStep::StopStage6 => 35,
        ReuseStep::ConnectPrep => 36,
        ReuseStep::RunStop => 37,
        ReuseStep::ArmWindow => 38,
        ReuseStep::StopStage7 => 39,
    }
}

/// The stage a stop boundary belongs to.
pub fn stop_stage_of(s: ReuseStep) -> (r: Option<u32>)
    ensures
        r == stop_stage(s),
{
    match s {
        ReuseStep::StopStage1 => Some(1),
        ReuseStep::StopStage2 => Some(2),
        ReuseStep::StopStage3 => Some(3),
        ReuseStep::StopStage4 => Some(4),
        ReuseStep::StopStage5 => Some(5),
        ReuseStep::StopStage6 => Some(6),
        ReuseStep::StopStage7 => Some(7),
        ReuseStep::StopStage8 => Some(8),
        ReuseStep::StopStage9 => Some(9),
        ReuseStep::StopStage10 => Some(10),
        ReuseStep::StopStage11 => Some(11),
        ReuseStep::StopStage12 => Some(12),
        _ => None,
    }
}

fn reuse_runs_exec(c: ReuseConfig, s: ReuseStep) -> (r: bool)
    ensures
        r == reuse_runs(c, s),
{
    match stop_stage_of(s) {
        Some(stage) => gadget_handoff_stop_selected(c.stop_stages, stage),
        None => match s {
            ReuseStep::CaptureFastbootEventRing => c.reuse_fastboot_dma,
            ReuseStep::AndroidBlockReset => c.android_block_reset,
            ReuseStep::DeviceReset => !c.preserve_core,
            ReuseStep::PreallocateResources => c.android_resource_order && !c.no_transfer_resource,
            ReuseStep::Ep0OutResource => !c.no_transfer_resource && !c.android_resource_order,
            ReuseStep::XblQueueRequest | ReuseStep::XblStartSetup | ReuseStep::XblStartRequest => c.xbl_between_ep0,
            ReuseStep::QueueSetupRequest => c.xbl_deferred_setup || c.xbl_between_ep0,
            ReuseStep::StartSetup => !c.xbl_between_ep0 && !c.defer_setup,
            _ => true,
        },
    }
}

fn failure_stage_of(s: ReuseStep) -> (r: Option<u32>)
    ensures
        r == failure_stage(s),
{
    match s {
        ReuseStep::BypassSmmu => Some(0),
        ReuseStep::CaptureFastbootEventRing => Some(1),
        ReuseStep::AndroidBlockReset | ReuseStep::DeviceReset => Some(2),
        ReuseStep::MapDma => Some(3),
        ReuseStep::StartConfig => Some(4),
        ReuseStep::PreallocateResources | ReuseStep::ConfigureEp0Out | ReuseStep::Ep0OutResource
        | ReuseStep::XblQueueRequest | ReuseStep::XblStartRequest | ReuseStep::ConfigureEp0In
        | ReuseStep::QueueSetupRequest => Some(5),
        ReuseStep::XblStartSetup | ReuseStep::StartSetup => Some(12),
        _ => None,
    }
}

fn reuse_next_running_exec(c: ReuseConfig, i: u32) -> (r: Option<ReuseStep>)
    requires
        i <= reuse_count(),
    ensures
        r == reuse_next_running(c, i as nat),
    decreases reuse_count() - i,
{
    if i >= 40 {
        None
    } else {
        let s = reuse_step_at_exec(i);
        if reuse_runs_exec(c, s) {
            Some(s)
        } else {
            reuse_next_running_exec(c, i + 1)
        }
    }
}

/// What follows step `p.step` of the probe built with `c`, which reported
/// `ok` (ignored by steps whose failure does not end the probe).
pub fn reuse_next(c: ReuseConfig, p: ReuseProgress, ok: bool) -> (n: ReuseNext)
    ensures
        n == spec_reuse_next(c, p, ok),
{
    if let Some(stage) = stop_stage_of(p.step) {
        return ReuseNext::Finished { ok: stage == 1 };
    }
    if let Some(stage) = failure_stage_of(p.step) {
        if !ok {
            if stage == 0 {
                return ReuseNext::Finished { ok: false };
            }
            return ReuseNext::FailedAtStage { stage };
        }
    }
    let q = match p.step {
        ReuseStep::XblStartRequest | ReuseStep::StartSetup => ReuseProgress { setup_armed: true, ..p },
        ReuseStep::EnableEp0In => ReuseProgress { endpoints_ready: true, ..p },
        _ => p,
    };
    match reuse_next_running_exec(c, reuse_index_exec(q.step) + 1) {
        Some(s) => ReuseNext::Step(ReuseProgress { step: s, ..q }),
        None => ReuseNext::Finished { ok: true },
    }
}

/// What holds of every progress the probe reaches.
pub open spec fn reuse_invariant(c: ReuseConfig, p: ReuseProgress) -> bool {
    &&& reuse_runs(c, p.step)
    &&& reuse_index(p.step) > reuse_index(ReuseStep::EnableEp0In) ==> p.endpoints_ready
    &&& c.xbl_between_ep0 && reuse_index(p.step) > reuse_index(ReuseStep::XblStartRequest)
        ==> p.setup_armed
    &&& !c.xbl_between_ep0 && !c.defer_setup && reuse_index(p.step) > reuse_index(
        ReuseStep::StartSetup,
    ) ==> p.setup_armed
}

proof fn lemma_reuse_index_at(i: nat)
    requires
        i < reuse_count(),
    ensures
        reuse_index(reuse_step_at(i)) == i,
{
}

proof fn lemma_reuse_next_running(c: ReuseConfig, i: nat)
    ensures
        match reuse_next_running(c, i) {
            Some(s) => reuse_index(s) >= i && reuse_runs(c, s) && reuse_index(s) < reuse_count()
                && forall|j: nat| i <= j < reuse_count() && #[trigger] reuse_runs(c, reuse_step_at(j))
                ==> reuse_index(s) <= j,
            None => forall|j: nat| i <= j < reuse_count() ==> !#[trigger] reuse_runs(
                c,
                reuse_step_at(j),
            ),
        },
    decreases reuse_count() - i,
{
    if i < reuse_count() {
        lemma_reuse_index_at(i);
        if !reuse_runs(c, reuse_step_at(i)) {
            lemma_reuse_next_running(c, i + 1);
            assert forall|j: nat| i <= j < reuse_count() && #[trigger] reuse_runs(c, reuse_step_at(j))
                implies j >= i + 1 by {
                if j == i {
                }
            }
        }
    }
}

/// Every progress the probe reaches keeps the invariant: it begins there
/// (when its first step runs), and each step keeps it. So the probe sets
/// Run/Stop only with both EP0 directions configured, and with the first
/// SETUP armed unless the build leaves it to a later connection event.
pub proof fn lemma_reuse_invariant(c: ReuseConfig, p: ReuseProgress, ok: bool)
    ensures
        reuse_invariant(c, spec_reuse_begin()),
        reuse_invariant(c, p) ==> match spec_reuse_next(c, p, ok) {
            ReuseNext::Step(q) => reuse_invariant(c, q),
            _ => true,
        },
        reuse_invariant(c, p) && p.step == ReuseStep::RunStop ==> p.endpoints_ready && (
        p.setup_armed || c.defer_setup),
{
    if reuse_invariant(c, p) {
        lemma_reuse_next_running(c, reuse_index(p.step) + 1);
        lemma_reuse_index_at(reuse_index(ReuseStep::EnableEp0In));
        lemma_reuse_index_at(reuse_index(ReuseStep::XblStartRequest));
        lemma_reuse_index_at(reuse_index(ReuseStep::StartSetup));
        assert(reuse_runs(c, reuse_step_at(reuse_index(ReuseStep::EnableEp0In))));
        if c.xbl_between_ep0 {
            assert(reuse_runs(c, reuse_step_at(reuse_index(ReuseStep::XblStartRequest))));
        }
        if !c.xbl_between_ep0 && !c.defer_setup {
            assert(reuse_runs(c, reuse_step_at(reuse_index(ReuseStep::StartSetup))));
        }
    }
}

} // verus!
