//! Handoff probes: what a selected stage probe does at its boundary, how a
//! SuperSpeed readout is encoded as a publication delay, and the U0 arm
//! recovery sequence as a step machine driven by command outcomes.

use vstd::prelude::*;
use vstd::string::StringSliceAdditionalSpecFns;
use crate::bytes::{ascii, bytes_equal, literal};
use crate::mmio::{
    DCFG_DEVADDR_MASK, DCFG_HIGHSPEED, DCFG_SPEED_MASK, DCFG_SUPERSPEED, DSTS_CONNECTSPD_MASK,
    DSTS_SUPERSPEED,
};
use crate::usb::stage_selected;

verus! {

/// What a selected stage probe does at its boundary.
#[derive(Clone, Copy, PartialEq, Eq, Debug)]
pub enum StageProbe {
    /// Stage 7, right after STARTTRANSFER: reassert the session votes,
    /// select the speed and Run/Stop; on a Run/Stop failure reset the device
    /// and publish the bare USB2 attach.
    RunStopBoundary { super_speed: bool },
    /// Stage 8: reset the device and publish the bare USB2 attach.
    ResetThenBare,
    /// Stages 6 and 9..=20: reassert the session votes, optionally clear the
    /// PIPE suspend, select the speed and Run/Stop, optionally capture the
    /// SuperSpeed state, and from stage 15 publish the USB2 marker.
    RunStop { clear_pipe_susphy: bool, super_speed: bool, capture_ss: bool, usb2_marker: bool },
    /// Stages 21 and later (after the final Run/Stop): capture the
    /// SuperSpeed state, then publish the USB2 marker.
    AfterRunStop { capture_ss: bool },
    /// Stages 1..=5: publish the bare USB2 attach.
    Bare,
}

/// The probe of `stage`, when it was selected. `ss_build` is the
/// SuperSpeed handoff build, `dcfg_ss_build` the build that always selects
/// SuperSpeed in DCFG.
pub open spec fn spec_stage_probe(stop_stages: u32, stage: u32, ss_build: bool, dcfg_ss_build: bool) -> Option<StageProbe> {
    if !stage_selected(stop_stages, stage) {
        None
    } else if stage == 7 {
        Some(StageProbe::RunStopBoundary { super_speed: dcfg_ss_build })
    } else if stage == 8 {
        Some(StageProbe::ResetThenBare)
    } else if stage >= 21 {
        Some(StageProbe::AfterRunStop { capture_ss: ss_build })
    } else if stage >= 6 {
        Some(
            StageProbe::RunStop {
                clear_pipe_susphy: stage >= 13 && ss_build,
                super_speed: dcfg_ss_build || (stage >= 13 && ss_build),
                capture_ss: stage >= 13 && stage != 20 && ss_build,
                usb2_marker: stage >= 15,
            },
        )
    } else {
        Some(StageProbe::Bare)
    }
}

/// The probe to run at `stage`.
pub fn stage_probe(stop_stages: u32, stage: u32, ss_build: bool, dcfg_ss_build: bool) -> (r: Option<
    StageProbe,
>)
    ensures
        r == spec_stage_probe(stop_stages, stage, ss_build, dcfg_ss_build),
{
    if !crate::usb::gadget_handoff_stop_selected(stop_stages, stage) {
        return None;
    }
    if stage == 7 {
        return Some(StageProbe::RunStopBoundary { super_speed: dcfg_ss_build });
    }
    if stage == 8 {
        return Some(StageProbe::ResetThenBare);
    }
    if stage >= 21 {
        return Some(StageProbe::AfterRunStop { capture_ss: ss_build });
    }
    if stage >= 6 {
        return Some(
            StageProbe::RunStop {
                clear_pipe_susphy: stage >= 13 && ss_build,
                super_speed: dcfg_ss_build || (stage >= 13 && ss_build),
                capture_ss: stage >= 13 && stage != 20 && ss_build,
                usb2_marker: stage >= 15,
            },
        );
    }
    Some(StageProbe::Bare)
}

/// The publication delay (ms) encoding a SuperSpeed readout code (capped at
/// 15) at the post-Run/Stop boundary: the LTSSM state in 250 ms steps up to
/// 4 s; the wide bit-1 readout as 0 or 8 s; any other readout as 0, 4 or
/// 8 s for 0, 1 or more.
pub open spec fn spec_ss_gate_delay_ms(selector: Seq<u8>, code: u32) -> u64 {
    let c = if code < 15 {
        code
    } else {
        15
    };
    if selector == ascii("ss-ltssm-bit1-wide"@) {
        if c == 0 {
            0
        } else {
            8000
        }
    } else if selector == ascii("ss-ltssm"@) {
        if c * 250 < 4000 {
            (c * 250) as u64
        } else {
            4000
        }
    } else if c == 0 {
        0
    } else if c == 1 {
        4000
    } else {
        8000
    }
}

/// The publication delay of a SuperSpeed readout.
pub fn ss_gate_delay_ms(selector: &str, code: u32) -> (ms: u64)
    ensures
        ms == spec_ss_gate_delay_ms(selector.spec_bytes(), code),
{
    proof {
        reveal_strlit("ss-ltssm-bit1-wide");
        reveal_strlit("ss-ltssm");
    }
    let c: u32 = if code < 15 {
        code
    } else {
        15
    };
    let name = selector.as_bytes();
    if bytes_equal(name, literal("ss-ltssm-bit1-wide")) {
        if c == 0 {
            0
        } else {
            8000
        }
    } else if bytes_equal(name, literal("ss-ltssm")) {
        let scaled = c * 250;
        if scaled < 4000 {
            scaled as u64
        } else {
            4000
        }
    } else if c == 0 {
        0
    } else if c == 1 {
        4000
    } else {
        8000
    }
}

/// Whether the U0 arm recovery probe was built in: its setting is present
/// and not `0`.
pub fn u0_arm_probe_enabled(setting: Option<&str>) -> (enabled: bool)
    ensures
        enabled == match setting {
            Some(v) => v.spec_bytes() != ascii("0"@),
            None => false,
        },
{
    proof {
        reveal_strlit("0");
    }
    match setting {
        Some(v) => !bytes_equal(v.as_bytes(), literal("0")),
        None => false,
    }
}

/// Whether the attach gate pins the recovery to high speed (`forcehs` or
/// `gdbforce`).
pub fn recovery_forces_high_speed(gate: Option<&str>) -> (force: bool)
    ensures
        force == match gate {
            Some(g) => g.spec_bytes() == ascii("forcehs"@) || g.spec_bytes() == ascii("gdbforce"@),
            None => false,
        },
{
    proof {
        reveal_strlit("forcehs");
        reveal_strlit("gdbforce");
    }
    match gate {
        Some(g) => bytes_equal(g.as_bytes(), literal("forcehs")) || bytes_equal(
            g.as_bytes(),
            literal("gdbforce"),
        ),
        None => false,
    }
}

/// One step of the U0 arm recovery.
#[derive(Clone, Copy, PartialEq, Eq, Debug)]
pub enum U0Step {
    /// Stop the running controller before rebuilding (the stop-first build).
    StopDevice,
    /// Reprogram the event buffer, DCFG (value given) and the driver state,
    /// then issue DEPSTARTCFG.
    Rebuild { dcfg: u32 },
    /// Configure EP0 OUT, then IN, for `max_packet`.
    ConfigureOut { max_packet: u32 },
    ConfigureIn { max_packet: u32 },
    /// Enable both EP0 directions and the device events, prepare the SETUP
    /// TRB and issue its STARTTRANSFER.
    StartSetup,
    /// Run/Stop on.
    RunStop,
    /// Retry arming SETUP for 100 ms now that the link may be on.
    ArmAfterRunStop,
    /// The recovery is over with this status.
    Done { status: u32 },
}

/// The recovery's settings and progress.
#[derive(Clone, Copy, PartialEq, Eq, Debug)]
pub struct U0Recovery {
    /// The status recorded so far (it carries over from earlier runs).
    pub status: u32,
    /// Defer the SETUP arm until after Run/Stop.
    pub defer_start: bool,
    pub max_packet: u32,
}

/// The DCFG value and EP0 packet size the recovery uses: the connected
/// speed DSTS still reports (unless high speed is forced), with the device
/// address cleared.
pub open spec fn spec_recovery_link(dcfg: u32, dsts: u32, force_hs: bool, initial_max_packet: u32) -> (u32, u32) {
    let super_speed = !force_hs && dsts & DSTS_CONNECTSPD_MASK == DSTS_SUPERSPEED;
    let base = dcfg & !(DCFG_SPEED_MASK | DCFG_DEVADDR_MASK);
    (
        base | if super_speed {
            DCFG_SUPERSPEED
        } else {
            DCFG_HIGHSPEED
        },
        if super_speed {
            initial_max_packet
        } else {
            64
        },
    )
}

/// Begin the recovery. Without the probe the answer is 0xffff_ffff and the
/// recorded status stays as it was; an already armed SETUP on ready
/// endpoints needs nothing and records status 0.
pub fn u0_begin(
    enabled: bool,
    setup_armed: bool,
    endpoints_ready: bool,
    stop_first: bool,
    running: bool,
    previous_status: u32,
    defer_start: bool,
    dcfg: u32,
    dsts: u32,
    force_hs: bool,
    initial_max_packet: u32,
) -> (r: (U0Recovery, U0Step))
    ensures
        !enabled ==> r.1 == (U0Step::Done { status: 0xffff_ffff }) && r.0.status == previous_status,
        enabled && setup_armed && endpoints_ready ==> r.1 == (U0Step::Done { status: 0 }) && r.0.status == 0,
        r.0.defer_start == defer_start,
        r.0.max_packet == spec_recovery_link(dcfg, dsts, force_hs, initial_max_packet).1,
        enabled && !(setup_armed && endpoints_ready) ==> {
            &&& r.0 == (U0Recovery {
                status: previous_status,
                defer_start,
                max_packet: spec_recovery_link(dcfg, dsts, force_hs, initial_max_packet).1,
            })
            &&& r.1 == if stop_first && running {
                U0Step::StopDevice
            } else {
                (U0Step::Rebuild { dcfg: spec_recovery_link(dcfg, dsts, force_hs, initial_max_packet).0 })
            }
        },
{
    let super_speed = !force_hs && dsts & DSTS_CONNECTSPD_MASK == DSTS_SUPERSPEED;
    let new_dcfg = (dcfg & !(DCFG_SPEED_MASK | DCFG_DEVADDR_MASK)) | if super_speed {
        DCFG_SUPERSPEED
    } else {
        DCFG_HIGHSPEED
    };
    let max_packet = if super_speed {
        initial_max_packet
    } else {
        64
    };
    let rec = U0Recovery { status: previous_status, defer_start, max_packet };
    if !enabled {
        return (rec, U0Step::Done { status: 0xffff_ffff });
    }
    if setup_armed && endpoints_ready {
        return (U0Recovery { status: 0, ..rec }, U0Step::Done { status: 0 });
    }
    if stop_first && running {
        (rec, U0Step::StopDevice)
    } else {
        (rec, U0Step::Rebuild { dcfg: new_dcfg })
    }
}

/// The step after `step` finished with outcome `ok`, and the recovery's
/// progress. A failed stop or Run/Stop ends with 1, a failed DEPSTARTCFG
/// with 4, a failed EP0 OUT or IN configuration with 5 or 6; a SETUP that
/// could not be armed records 8 and the recovery carries on; in the
/// deferred build the arm is only attempted after Run/Stop.
pub open spec fn spec_u0_advance(r: U0Recovery, step: U0Step, ok: bool, dcfg: u32) -> (U0Recovery, U0Step) {
    match step {
        U0Step::StopDevice => if ok {
            (r, U0Step::Rebuild { dcfg })
        } else {
            (U0Recovery { status: 1, ..r }, U0Step::Done { status: 1 })
        },
        U0Step::Rebuild { .. } => if ok {
            (r, U0Step::ConfigureOut { max_packet: r.max_packet })
        } else {
            (U0Recovery { status: 4, ..r }, U0Step::Done { status: 4 })
        },
        U0Step::ConfigureOut { max_packet } => if ok {
            (r, U0Step::ConfigureIn { max_packet })
        } else {
            (U0Recovery { status: 5, ..r }, U0Step::Done { status: 5 })
        },
        U0Step::ConfigureIn { .. } => if !ok {
            (U0Recovery { status: 6, ..r }, U0Step::Done { status: 6 })
        } else if r.defer_start {
            (U0Recovery { status: 0, ..r }, U0Step::RunStop)
        } else {
            (r, U0Step::StartSetup)
        },
        U0Step::StartSetup => if ok {
            (r, U0Step::RunStop)
        } else {
            (U0Recovery { status: 8, ..r }, U0Step::RunStop)
        },
        U0Step::RunStop => if !ok {
            (U0Recovery { status: 1, ..r }, U0Step::Done { status: 1 })
        } else if r.defer_start {
            (r, U0Step::ArmAfterRunStop)
        } else {
            (r, U0Step::Done { status: r.status })
        },
        U0Step::ArmAfterRunStop => if ok {
            (r, U0Step::Done { status: r.status })
        } else {
            (U0Recovery { status: 8, ..r }, U0Step::Done { status: 8 })
        },
        U0Step::Done { status } => (r, U0Step::Done { status }),
    }
}

/// Advance the recovery. `dcfg` is the value a Rebuild after a stop
/// programs.
pub fn u0_advance(r: U0Recovery, step: U0Step, ok: bool, dcfg: u32) -> (next: (U0Recovery, U0Step))
    ensures
        next == spec_u0_advance(r, step, ok, dcfg),
{
    match step {
        U0Step::StopDevice => if ok {
            (r, U0Step::Rebuild { dcfg })
        } else {
            (U0Recovery { status: 1, ..r }, U0Step::Done { status: 1 })
        },
        U0Step::Rebuild { .. } => if ok {
            (r, U0Step::ConfigureOut { max_packet: r.max_packet })
        } else {
            (U0Recovery { status: 4, ..r }, U0Step::Done { status: 4 })
        },
        U0Step::ConfigureOut { max_packet } => if ok {
            (r, U0Step::ConfigureIn { max_packet })
        } else {
            (U0Recovery { status: 5, ..r }, U0Step::Done { status: 5 })
        },
        U0Step::ConfigureIn { .. } => if !ok {
            (U0Recovery { status: 6, ..r }, U0Step::Done { status: 6 })
        } else if r.defer_start {
            (U0Recovery { status: 0, ..r }, U0Step::RunStop)
        } else {
            (r, U0Step::StartSetup)
        },
        U0Step::StartSetup => if ok {
            (r, U0Step::RunStop)
        } else {
            (U0Recovery { status: 8, ..r }, U0Step::RunStop)
        },
        U0Step::RunStop => if !ok {
            (U0Recovery { status: 1, ..r }, U0Step::Done { status: 1 })
        } else if r.defer_start {
            (r, U0Step::ArmAfterRunStop)
        } else {
            (r, U0Step::Done { status: r.status })
        },
        U0Step::ArmAfterRunStop => if ok {
            (r, U0Step::Done { status: r.status })
        } else {
            (U0Recovery { status: 8, ..r }, U0Step::Done { status: 8 })
        },
        U0Step::Done { status } => (r, U0Step::Done { status }),
    }
}

/// A finished recovery reports the status it recorded: whatever the
/// outcomes, the status a `Done` step carries is the recovery's own.
pub proof fn lemma_u0_done_reports_status(r: U0Recovery, step: U0Step, ok: bool, dcfg: u32)
    requires
        !(step is Done),
    ensures
        spec_u0_advance(r, step, ok, dcfg).1 matches U0Step::Done { status } ==> status
            == spec_u0_advance(r, step, ok, dcfg).0.status,
{
}

/// `a + b`, saturating at `u64::MAX`.
pub open spec fn sat_add64(a: int, b: int) -> u64 {
    if a + b > u64::MAX {
        u64::MAX
    } else {
        (a + b) as u64
    }
}

/// `a * b`, saturating at `u64::MAX`.
pub open spec fn sat_mul64(a: int, b: int) -> u64 {
    if a * b > u64::MAX {
        u64::MAX
    } else {
        (a * b) as u64
    }
}

fn saturating_add64(a: u64, b: u64) -> (r: u64)
    ensures
        r == sat_add64(a as int, b as int),
{
    match a.checked_add(b) {
        Some(r) => r,
        None => u64::MAX,
    }
}

fn saturating_mul64(a: u64, b: u64) -> (r: u64)
    ensures
        r == sat_mul64(a as int, b as int),
{
    match a.checked_mul(b) {
        Some(r) => r,
        None => u64::MAX,
    }
}

/// A park: spin until `deadline`, re-voting the USB power domain every
/// half second, then reset.
#[derive(Clone, Copy, PartialEq, Eq, Debug)]
pub struct ParkWindow {
    pub frequency: u64,
    pub deadline: u64,
    pub keepalive_period: u64,
    pub next_keepalive: u64,
}

/// The trace marker of a park: "PARK" with the low byte of the seconds in
/// bits 15:8.
pub fn park_marker(seconds: u64) -> (marker: u32)
    ensures
        marker == 0x5041_524bu32 | (((seconds & 0xff) as u32) << 8u32),
{
    0x5041_524b | (((seconds & 0xff) as u32) << 8)
}

/// Open a park of `seconds` at counter `now` (and `now_keepalive`, the
/// counter read when the first keepalive is scheduled).
pub fn park_window(frequency: u64, now: u64, now_keepalive: u64, seconds: u64) -> (w: ParkWindow)
    ensures
        w == (ParkWindow {
            frequency,
            deadline: sat_add64(now as int, sat_mul64(frequency as int, seconds as int) as int),
            keepalive_period: frequency / 2,
            next_keepalive: sat_add64(now_keepalive as int, (frequency / 2) as int),
        }),
{
    let period = frequency / 2;
    ParkWindow {
        frequency,
        deadline: saturating_add64(now, saturating_mul64(frequency, seconds)),
        keepalive_period: period,
        next_keepalive: saturating_add64(now_keepalive, period),
    }
}

/// What a park does at one spin.
#[derive(Clone, Copy, PartialEq, Eq, Debug)]
pub enum ParkAction {
    /// Pet the watchdog and spin on.
    Wait,
    /// Pet the watchdog, re-vote the USB power domain, spin on.
    Keepalive,
    /// The park is over (or the counter frequency is unknown): reset.
    Reset,
}

/// The action of one spin.
pub open spec fn spec_park_action(w: ParkWindow, now: u64, now_keepalive: u64) -> ParkAction {
    if w.frequency == 0 || now >= w.deadline {
        ParkAction::Reset
    } else if now_keepalive >= w.next_keepalive {
        ParkAction::Keepalive
    } else {
        ParkAction::Wait
    }
}

/// One spin of a park: `now` is the counter read for the deadline,
/// `now_keepalive` the one read for the keepalive (and to reschedule it).
pub fn park_tick(w: &mut ParkWindow, now: u64, now_keepalive: u64) -> (a: ParkAction)
    ensures
        a == spec_park_action(*old(w), now, now_keepalive),
        *final(w) == if a == ParkAction::Keepalive {
            ParkWindow { next_keepalive: sat_add64(now_keepalive as int, old(w).keepalive_period as int), ..*old(w) }
        } else {
            *old(w)
        },
{
    if w.frequency == 0 || now >= w.deadline {
        return ParkAction::Reset;
    }
    if now_keepalive >= w.next_keepalive {
        w.next_keepalive = saturating_add64(now_keepalive, w.keepalive_period);
        return ParkAction::Keepalive;
    }
    ParkAction::Wait
}

/// A park always ends: once the counter reaches the deadline, the next
/// spin resets.
pub proof fn lemma_park_ends_at_deadline(w: ParkWindow, now: u64, now_keepalive: u64)
    requires
        now >= w.deadline,
    ensures
        spec_park_action(w, now, now_keepalive) == ParkAction::Reset,
{
}

} // verus!
