//! The attach gates: named yes/no questions about a handoff attempt,
//! answered from the trace harvest and a snapshot of the controller and
//! firmware state. A gate name that is none of the named gates is read as a
//! hexadecimal STARTTRANSFER outcome to compare with the harvest.

use vstd::prelude::*;
use vstd::string::StringSliceAdditionalSpecFns;
use crate::bytes::{
    ascii, bytes_equal, hex_value, literal, parse_u32_hex, parses_hex, trim_hex_prefix,
    trim_hex_prefixes, unsigned_digits,
};
use crate::harvest::{TraceHarvest, NO_RECORD};
use crate::mmio::{DCTL_CSFTRST, DCTL_RUN_STOP, DEPCMD_CMDACT, DSTS_DCNRD, DSTS_DEVCTRLHLT};

verus! {

/// What gate conditions read: the harvest of this run's trace, the firmware
/// probes made at entry, the live controller registers and the driver's
/// own progress records.
#[derive(Clone, Copy, PartialEq, Eq, Debug)]
pub struct GateSnapshot {
    pub harvest: TraceHarvest,
    /// KPSS watchdog enable register at entry.
    pub wdt_kpss_en: u32,
    /// Secure-watchdog disable call result (low word 0 = accepted).
    pub swdd_result: u64,
    /// Secure-call availability answer.
    pub swdd_avail: u64,
    /// SMCCC version answer.
    pub swdd_std: u64,
    /// MDCR_EL2 at entry.
    pub mdcr_el2: u64,
    /// CurrentEL at entry.
    pub current_el: u64,
    /// DSTS and DCTL as read at evaluation time.
    pub dsts: u32,
    pub dctl: u32,
    /// Whether any poll ever saw the link in U0.
    pub lnk_ever_on: bool,
    pub endpoints_ready: bool,
    pub ep0_setup_armed: bool,
    /// Whether control endpoint 0 is in its Setup stage.
    pub ep0_in_setup: bool,
    pub u0_arm_status: u32,
    pub init_stage: u32,
    /// DSTS before the first endpoint command was issued.
    pub depstart_pre_dsts: u32,
    /// DSTS when the core soft reset began.
    pub pre_reset_dsts: u32,
    /// Completed DEPSTARTCFG command register and DSTS after it.
    pub depstart_raw: u32,
    pub depstart_dsts: u32,
    /// Endpoint-0 configuration command, its DSTS and whether it succeeded.
    pub epcfg0_raw: u32,
    pub epcfg0_dsts: u32,
    pub epcfg0_ok: bool,
    /// Endpoint-1 configuration command, its DSTS and whether it succeeded.
    pub epcfg1_raw: u32,
    pub epcfg1_dsts: u32,
    pub epcfg1_ok: bool,
}

/// A parsed gate.
#[derive(Clone, Copy, PartialEq, Eq, Debug)]
pub enum Gate {
    Always,
    Timeout,
    Done,
    LastTimeout,
    LastDone,
    Setup,
    Desc,
    Statusq,
    Armed,
    ArmFirst,
    SetupFirst,
    Connect,
    Addr,
    Readall,
    Ep1None,
    Ep1Wedge,
    Ep1Clean,
    Ep1Done,
    Ep1Nores,
    Ep1StatusSuccess,
    Ep1StatusNores,
    Ep1StatusBusExpiry,
    Ep1StatusOther,
    Darm,
    DarmFail,
    Ep1Xfer,
    Ep1XferOk,
    Ep1XferErr,
    Ep1Nrdy,
    Post,
    PostStart,
    PostEnd,
    PostEvent,
    PostRecord,
    WdtArmed,
    WdtOff,
    SwddOk,
    SwddFail,
    ScmAnsw,
    ScmAvail,
    ScmNoimpl,
    ScmDead,
    StdOk,
    StdDead,
    MdcrTrap,
    MdcrClean,
    El1,
    El2,
    LnkOn,
    LnkEverOn,
    LnkReset,
    LnkSuspend,
    Halt,
    Epready,
    Ep0armed,
    Ep0setup,
    U0Status0,
    U0Status1,
    U0Status4,
    U0Status5,
    U0Status6,
    U0Status8,
    Is2,
    Is3,
    Is4,
    Is5,
    Is6,
    DsPreRst,
    DsPreRs,
    DsPreSusp,
    DsPreHalt,
    DstsRs,
    DstsRst,
    DctlRun,
    DctlCsf,
    DctlOk,
    DstsOk,
    PreResRst,
    PreResRs,
    PreResSusp,
    PreResHalt,
    Ep1Stuck,
    Ep1Lnk0,
    CfgHv,
    CfgHvDone,
    CfgHvStuck,
    RscHv,
    RscHvDone,
    RscHvStuck,
    DsStuck,
    DsDone,
    Ep0Stuck,
    Ep0Ok,
    Ep1Ok,
    DsDcnrd,
    Ep0Dcnrd,
    DsHalt,
    DsLnk0,
    Ep0Lnk0,
    /// Not a named gate: true when the harvested STARTTRANSFER outcome
    /// equals this value.
    Outcome { value: u32 },
    /// Not a named gate and not a hexadecimal value: never true.
    Unmatched,
}

/// Which gate a name selects (named gates, first part).
pub open spec fn spec_parse_gate_a(name: Seq<u8>) -> Gate {
    if name == ascii("always"@) {
        Gate::Always
    } else if name == ascii("timeout"@) {
        Gate::Timeout
    } else if name == ascii("done"@) {
        Gate::Done
    } else if name == ascii("last-timeout"@) {
        Gate::LastTimeout
    } else if name == ascii("last-done"@) {
        Gate::LastDone
    } else if name == ascii("setup"@) {
        Gate::Setup
    } else if name == ascii("desc"@) {
        Gate::Desc
    } else if name == ascii("statusq"@) {
        Gate::Statusq
    } else if name == ascii("armed"@) {
        Gate::Armed
    } else if name == ascii("arm-first"@) {
        Gate::ArmFirst
    } else if name == ascii("setup-first"@) {
        Gate::SetupFirst
    } else if name == ascii("connect"@) {
        Gate::Connect
    } else if name == ascii("addr"@) {
        Gate::Addr
    } else if name == ascii("readall"@) {
        Gate::Readall
    } else if name == ascii("ep1-none"@) {
        Gate::Ep1None
    } else if name == ascii("ep1-wedge"@) {
        Gate::Ep1Wedge
    } else if name == ascii("ep1-clean"@) {
        Gate::Ep1Clean
    } else if name == ascii("ep1-done"@) {
        Gate::Ep1Done
    } else if name == ascii("ep1-nores"@) {
        Gate::Ep1Nores
    } else if name == ascii("ep1-status-success"@) {
        Gate::Ep1StatusSuccess
    } else if name == ascii("ep1-status-nores"@) {
        Gate::Ep1StatusNores
    } else if name == ascii("ep1-status-bus-expiry"@) {
        Gate::Ep1StatusBusExpiry
    } else if name == ascii("ep1-status-other"@) {
        Gate::Ep1StatusOther
    } else if name == ascii("darm"@) {
        Gate::Darm
    } else if name == ascii("darm-fail"@) {
        Gate::DarmFail
    } else if name == ascii("ep1-xfer"@) {
        Gate::Ep1Xfer
    } else if name == ascii("ep1-xfer-ok"@) {
        Gate::Ep1XferOk
    } else {
        spec_parse_gate_b(name)
    }
}

/// Which gate a name selects.
pub open spec fn spec_parse_gate_b(name: Seq<u8>) -> Gate {
    if name == ascii("ep1-xfer-err"@) {
        Gate::Ep1XferErr
    } else if name == ascii("ep1-nrdy"@) {
        Gate::Ep1Nrdy
    } else if name == ascii("post"@) {
        Gate::Post
    } else if name == ascii("post-start"@) {
        Gate::PostStart
    } else if name == ascii("post-end"@) {
        Gate::PostEnd
    } else if name == ascii("post-event"@) {
        Gate::PostEvent
    } else if name == ascii("post-record"@) {
        Gate::PostRecord
    } else if name == ascii("wdt-armed"@) {
        Gate::WdtArmed
    } else if name == ascii("wdt-off"@) {
        Gate::WdtOff
    } else if name == ascii("swdd-ok"@) {
        Gate::SwddOk
    } else if name == ascii("swdd-fail"@) {
        Gate::SwddFail
    } else if name == ascii("scm-answ"@) {
        Gate::ScmAnsw
    } else if name == ascii("scm-avail"@) {
        Gate::ScmAvail
    } else if name == ascii("scm-noimpl"@) {
        Gate::ScmNoimpl
    } else if name == ascii("scm-dead"@) {
        Gate::ScmDead
    } else if name == ascii("std-ok"@) {
        Gate::StdOk
    } else if name == ascii("std-dead"@) {
        Gate::StdDead
    } else if name == ascii("mdcr-trap"@) {
        Gate::MdcrTrap
    } else if name == ascii("mdcr-clean"@) {
        Gate::MdcrClean
    } else if name == ascii("el1"@) {
        Gate::El1
    } else if name == ascii("el2"@) {
        Gate::El2
    } else if name == ascii("lnk-on"@) {
        Gate::LnkOn
    } else if name == ascii("lnk-ever-on"@) {
        Gate::LnkEverOn
    } else if name == ascii("lnk-reset"@) {
        Gate::LnkReset
    } else if name == ascii("lnk-suspend"@) {
        Gate::LnkSuspend
    } else if name == ascii("halt"@) {
        Gate::Halt
    } else if name == ascii("epready"@) {
        Gate::Epready
    } else {
        spec_parse_gate_c(name)
    }
}

/// Which gate a name selects.
pub open spec fn spec_parse_gate_c(name: Seq<u8>) -> Gate {
    if name == ascii("ep0armed"@) {
        Gate::Ep0armed
    } else if name == ascii("ep0setup"@) {
        Gate::Ep0setup
    } else if name == ascii("u0-status0"@) {
        Gate::U0Status0
    } else if name == ascii("u0-status1"@) {
        Gate::U0Status1
    } else if name == ascii("u0-status4"@) {
        Gate::U0Status4
    } else if name == ascii("u0-status5"@) {
        Gate::U0Status5
    } else if name == ascii("u0-status6"@) {
        Gate::U0Status6
    } else if name == ascii("u0-status8"@) {
        Gate::U0Status8
    } else if name == ascii("is2"@) {
        Gate::Is2
    } else if name == ascii("is3"@) {
        Gate::Is3
    } else if name == ascii("is4"@) {
        Gate::Is4
    } else if name == ascii("is5"@) {
        Gate::Is5
    } else if name == ascii("is6"@) {
        Gate::Is6
    } else if name == ascii("ds-pre-rst"@) {
        Gate::DsPreRst
    } else if name == ascii("ds-pre-rs"@) {
        Gate::DsPreRs
    } else if name == ascii("ds-pre-susp"@) {
        Gate::DsPreSusp
    } else if name == ascii("ds-pre-halt"@) {
        Gate::DsPreHalt
    } else if name == ascii("dsts-rs"@) {
        Gate::DstsRs
    } else if name == ascii("dsts-rst"@) {
        Gate::DstsRst
    } else if name == ascii("dctl-run"@) {
        Gate::DctlRun
    } else if name == ascii("dctl-csf"@) {
        Gate::DctlCsf
    } else if name == ascii("dctl-ok"@) {
        Gate::DctlOk
    } else if name == ascii("dsts-ok"@) {
        Gate::DstsOk
    } else if name == ascii("pre-res-rst"@) {
        Gate::PreResRst
    } else if name == ascii("pre-res-rs"@) {
        Gate::PreResRs
    } else if name == ascii("pre-res-susp"@) {
        Gate::PreResSusp
    } else if name == ascii("pre-res-halt"@) {
        Gate::PreResHalt
    } else {
        spec_parse_gate_d(name)
    }
}

/// Which gate a name selects.
pub open spec fn spec_parse_gate_d(name: Seq<u8>) -> Gate {
    if name == ascii("ep1-stuck"@) {
        Gate::Ep1Stuck
    } else if name == ascii("ep1-lnk0"@) {
        Gate::Ep1Lnk0
    } else if name == ascii("cfg-hv"@) {
        Gate::CfgHv
    } else if name == ascii("cfg-hv-done"@) {
        Gate::CfgHvDone
    } else if name == ascii("cfg-hv-stuck"@) {
        Gate::CfgHvStuck
    } else if name == ascii("rsc-hv"@) {
        Gate::RscHv
    } else if name == ascii("rsc-hv-done"@) {
        Gate::RscHvDone
    } else if name == ascii("rsc-hv-stuck"@) {
        Gate::RscHvStuck
    } else if name == ascii("ds-stuck"@) {
        Gate::DsStuck
    } else if name == ascii("ds-done"@) {
        Gate::DsDone
    } else if name == ascii("ep0-stuck"@) {
        Gate::Ep0Stuck
    } else if name == ascii("ep0-ok"@) {
        Gate::Ep0Ok
    } else if name == ascii("ep1-ok"@) {
        Gate::Ep1Ok
    } else if name == ascii("ds-dcnrd"@) {
        Gate::DsDcnrd
    } else if name == ascii("ep0-dcnrd"@) {
        Gate::Ep0Dcnrd
    } else if name == ascii("ds-halt"@) {
        Gate::DsHalt
    } else if name == ascii("ds-lnk0"@) {
        Gate::DsLnk0
    } else if name == ascii("ep0-lnk0"@) {
        Gate::Ep0Lnk0
    } else {
        spec_parse_gate_value(name)
    }
}

fn parse_gate_a(name: &[u8]) -> (g: Gate)
    ensures
        g == spec_parse_gate_a(name@),
{
    proof {
        reveal_strlit("always");
        reveal_strlit("timeout");
        reveal_strlit("done");
        reveal_strlit("last-timeout");
        reveal_strlit("last-done");
        reveal_strlit("setup");
        reveal_strlit("desc");
        reveal_strlit("statusq");
        reveal_strlit("armed");
        reveal_strlit("arm-first");
        reveal_strlit("setup-first");
        reveal_strlit("connect");
        reveal_strlit("addr");
        reveal_strlit("readall");
        reveal_strlit("ep1-none");
        reveal_strlit("ep1-wedge");
        reveal_strlit("ep1-clean");
        reveal_strlit("ep1-done");
        reveal_strlit("ep1-nores");
        reveal_strlit("ep1-status-success");
        reveal_strlit("ep1-status-nores");
        reveal_strlit("ep1-status-bus-expiry");
        reveal_strlit("ep1-status-other");
        reveal_strlit("darm");
        reveal_strlit("darm-fail");
        reveal_strlit("ep1-xfer");
        reveal_strlit("ep1-xfer-ok");
    }
    if bytes_equal(name, literal("always")) {
        Gate::Always
    } else if bytes_equal(name, literal("timeout")) {
        Gate::Timeout
    } else if bytes_equal(name, literal("done")) {
        Gate::Done
    } else if bytes_equal(name, literal("last-timeout")) {
        Gate::LastTimeout
    } else if bytes_equal(name, literal("last-done")) {
        Gate::LastDone
    } else if bytes_equal(name, literal("setup")) {
        Gate::Setup
    } else if bytes_equal(name, literal("desc")) {
        Gate::Desc
    } else if bytes_equal(name, literal("statusq")) {
        Gate::Statusq
    } else if bytes_equal(name, literal("armed")) {
        Gate::Armed
    } else if bytes_equal(name, literal("arm-first")) {
        Gate::ArmFirst
    } else if bytes_equal(name, literal("setup-first")) {
        Gate::SetupFirst
    } else if bytes_equal(name, literal("connect")) {
        Gate::Connect
    } else if bytes_equal(name, literal("addr")) {
        Gate::Addr
    } else if bytes_equal(name, literal("readall")) {
        Gate::Readall
    } else if bytes_equal(name, literal("ep1-none")) {
        Gate::Ep1None
    } else if bytes_equal(name, literal("ep1-wedge")) {
        Gate::Ep1Wedge
    } else if bytes_equal(name, literal("ep1-clean")) {
        Gate::Ep1Clean
    } else if bytes_equal(name, literal("ep1-done")) {
        Gate::Ep1Done
    } else if bytes_equal(name, literal("ep1-nores")) {
        Gate::Ep1Nores
    } else if bytes_equal(name, literal("ep1-status-success")) {
        Gate::Ep1StatusSuccess
    } else if bytes_equal(name, literal("ep1-status-nores")) {
        Gate::Ep1StatusNores
    } else if bytes_equal(name, literal("ep1-status-bus-expiry")) {
        Gate::Ep1StatusBusExpiry
    } else if bytes_equal(name, literal("ep1-status-other")) {
        Gate::Ep1StatusOther
    } else if bytes_equal(name, literal("darm")) {
        Gate::Darm
    } else if bytes_equal(name, literal("darm-fail")) {
        Gate::DarmFail
    } else if bytes_equal(name, literal("ep1-xfer")) {
        Gate::Ep1Xfer
    } else if bytes_equal(name, literal("ep1-xfer-ok")) {
        Gate::Ep1XferOk
    } else {
        parse_gate_b(name)
    }
}

fn parse_gate_b(name: &[u8]) -> (g: Gate)
    ensures
        g == spec_parse_gate_b(name@),
{
    proof {
        reveal_strlit("ep1-xfer-err");
        reveal_strlit("ep1-nrdy");
        reveal_strlit("post");
        reveal_strlit("post-start");
        reveal_strlit("post-end");
        reveal_strlit("post-event");
        reveal_strlit("post-record");
        reveal_strlit("wdt-armed");
        reveal_strlit("wdt-off");
        reveal_strlit("swdd-ok");
        reveal_strlit("swdd-fail");
        reveal_strlit("scm-answ");
        reveal_strlit("scm-avail");
        reveal_strlit("scm-noimpl");
        reveal_strlit("scm-dead");
        reveal_strlit("std-ok");
        reveal_strlit("std-dead");
        reveal_strlit("mdcr-trap");
        reveal_strlit("mdcr-clean");
        reveal_strlit("el1");
        reveal_strlit("el2");
        reveal_strlit("lnk-on");
        reveal_strlit("lnk-ever-on");
        reveal_strlit("lnk-reset");
        reveal_strlit("lnk-suspend");
        reveal_strlit("halt");
        reveal_strlit("epready");
    }
    if bytes_equal(name, literal("ep1-xfer-err")) {
        Gate::Ep1XferErr
    } else if bytes_equal(name, literal("ep1-nrdy")) {
        Gate::Ep1Nrdy
    } else if bytes_equal(name, literal("post")) {
        Gate::Post
    } else if bytes_equal(name, literal("post-start")) {
        Gate::PostStart
    } else if bytes_equal(name, literal("post-end")) {
        Gate::PostEnd
    } else if bytes_equal(name, literal("post-event")) {
        Gate::PostEvent
    } else if bytes_equal(name, literal("post-record")) {
        Gate::PostRecord
    } else if bytes_equal(name, literal("wdt-armed")) {
        Gate::WdtArmed
    } else if bytes_equal(name, literal("wdt-off")) {
        Gate::WdtOff
    } else if bytes_equal(name, literal("swdd-ok")) {
        Gate::SwddOk
    } else if bytes_equal(name, literal("swdd-fail")) {
        Gate::SwddFail
    } else if bytes_equal(name, literal("scm-answ")) {
        Gate::ScmAnsw
    } else if bytes_equal(name, literal("scm-avail")) {
        Gate::ScmAvail
    } else if bytes_equal(name, literal("scm-noimpl")) {
        Gate::ScmNoimpl
    } else if bytes_equal(name, literal("scm-dead")) {
        Gate::ScmDead
    } else if bytes_equal(name, literal("std-ok")) {
        Gate::StdOk
    } else if bytes_equal(name, literal("std-dead")) {
        Gate::StdDead
    } else if bytes_equal(name, literal("mdcr-trap")) {
        Gate::MdcrTrap
    } else if bytes_equal(name, literal("mdcr-clean")) {
        Gate::MdcrClean
    } else if bytes_equal(name, literal("el1")) {
        Gate::El1
    } else if bytes_equal(name, literal("el2")) {
        Gate::El2
    } else if bytes_equal(name, literal("lnk-on")) {
        Gate::LnkOn
    } else if bytes_equal(name, literal("lnk-ever-on")) {
        Gate::LnkEverOn
    } else if bytes_equal(name, literal("lnk-reset")) {
        Gate::LnkReset
    } else if bytes_equal(name, literal("lnk-suspend")) {
        Gate::LnkSuspend
    } else if bytes_equal(name, literal("halt")) {
        Gate::Halt
    } else if bytes_equal(name, literal("epready")) {
        Gate::Epready
    } else {
        parse_gate_c(name)
    }
}

fn parse_gate_c(name: &[u8]) -> (g: Gate)
    ensures
        g == spec_parse_gate_c(name@),
{
    proof {
        reveal_strlit("ep0armed");
        reveal_strlit("ep0setup");
        reveal_strlit("u0-status0");
        reveal_strlit("u0-status1");
        reveal_strlit("u0-status4");
        reveal_strlit("u0-status5");
        reveal_strlit("u0-status6");
        reveal_strlit("u0-status8");
        reveal_strlit("is2");
        reveal_strlit("is3");
        reveal_strlit("is4");
        reveal_strlit("is5");
        reveal_strlit("is6");
        reveal_strlit("ds-pre-rst");
        reveal_strlit("ds-pre-rs");
        reveal_strlit("ds-pre-susp");
        reveal_strlit("ds-pre-halt");
        reveal_strlit("dsts-rs");
        reveal_strlit("dsts-rst");
        reveal_strlit("dctl-run");
        reveal_strlit("dctl-csf");
        reveal_strlit("dctl-ok");
        reveal_strlit("dsts-ok");
        reveal_strlit("pre-res-rst");
        reveal_strlit("pre-res-rs");
        reveal_strlit("pre-res-susp");
        reveal_strlit("pre-res-halt");
    }
    if bytes_equal(name, literal("ep0armed")) {
        Gate::Ep0armed
    } else if bytes_equal(name, literal("ep0setup")) {
        Gate::Ep0setup
    } else if bytes_equal(name, literal("u0-status0")) {
        Gate::U0Status0
    } else if bytes_equal(name, literal("u0-status1")) {
        Gate::U0Status1
    } else if bytes_equal(name, literal("u0-status4")) {
        Gate::U0Status4
    } else if bytes_equal(name, literal("u0-status5")) {
        Gate::U0Status5
    } else if bytes_equal(name, literal("u0-status6")) {
        Gate::U0Status6
    } else if bytes_equal(name, literal("u0-status8")) {
        Gate::U0Status8
    } else if bytes_equal(name, literal("is2")) {
        Gate::Is2
    } else if bytes_equal(name, literal("is3")) {
        Gate::Is3
    } else if bytes_equal(name, literal("is4")) {
        Gate::Is4
    } else if bytes_equal(name, literal("is5")) {
        Gate::Is5
    } else if bytes_equal(name, literal("is6")) {
        Gate::Is6
    } else if bytes_equal(name, literal("ds-pre-rst")) {
        Gate::DsPreRst
    } else if bytes_equal(name, literal("ds-pre-rs")) {
        Gate::DsPreRs
    } else if bytes_equal(name, literal("ds-pre-susp")) {
        Gate::DsPreSusp
    } else if bytes_equal(name, literal("ds-pre-halt")) {
        Gate::DsPreHalt
    } else if bytes_equal(name, literal("dsts-rs")) {
        Gate::DstsRs
    } else if bytes_equal(name, literal("dsts-rst")) {
        Gate::DstsRst
    } else if bytes_equal(name, literal("dctl-run")) {
        Gate::DctlRun
    } else if bytes_equal(name, literal("dctl-csf")) {
        Gate::DctlCsf
    } else if bytes_equal(name, literal("dctl-ok")) {
        Gate::DctlOk
    } else if bytes_equal(name, literal("dsts-ok")) {
        Gate::DstsOk
    } else if bytes_equal(name, literal("pre-res-rst")) {
        Gate::PreResRst
    } else if bytes_equal(name, literal("pre-res-rs")) {
        Gate::PreResRs
    } else if bytes_equal(name, literal("pre-res-susp")) {
        Gate::PreResSusp
    } else if bytes_equal(name, literal("pre-res-halt")) {
        Gate::PreResHalt
    } else {
        parse_gate_d(name)
    }
}

fn parse_gate_d(name: &[u8]) -> (g: Gate)
    ensures
        g == spec_parse_gate_d(name@),
{
    proof {
        reveal_strlit("ep1-stuck");
        reveal_strlit("ep1-lnk0");
        reveal_strlit("cfg-hv");
        reveal_strlit("cfg-hv-done");
        reveal_strlit("cfg-hv-stuck");
        reveal_strlit("rsc-hv");
        reveal_strlit("rsc-hv-done");
        reveal_strlit("rsc-hv-stuck");
        reveal_strlit("ds-stuck");
        reveal_strlit("ds-done");
        reveal_strlit("ep0-stuck");
        reveal_strlit("ep0-ok");
        reveal_strlit("ep1-ok");
        reveal_strlit("ds-dcnrd");
        reveal_strlit("ep0-dcnrd");
        reveal_strlit("ds-halt");
        reveal_strlit("ds-lnk0");
        reveal_strlit("ep0-lnk0");
    }
    if bytes_equal(name, literal("ep1-stuck")) {
        Gate::Ep1Stuck
    } else if bytes_equal(name, literal("ep1-lnk0")) {
        Gate::Ep1Lnk0
    } else if bytes_equal(name, literal("cfg-hv")) {
        Gate::CfgHv
    } else if bytes_equal(name, literal("cfg-hv-done")) {
        Gate::CfgHvDone
    } else if bytes_equal(name, literal("cfg-hv-stuck")) {
        Gate::CfgHvStuck
    } else if bytes_equal(name, literal("rsc-hv")) {
        Gate::RscHv
    } else if bytes_equal(name, literal("rsc-hv-done")) {
        Gate::RscHvDone
    } else if bytes_equal(name, literal("rsc-hv-stuck")) {
        Gate::RscHvStuck
    } else if bytes_equal(name, literal("ds-stuck")) {
        Gate::DsStuck
    } else if bytes_equal(name, literal("ds-done")) {
        Gate::DsDone
    } else if bytes_equal(name, literal("ep0-stuck")) {
        Gate::Ep0Stuck
    } else if bytes_equal(name, literal("ep0-ok")) {
        Gate::Ep0Ok
    } else if bytes_equal(name, literal("ep1-ok")) {
        Gate::Ep1Ok
    } else if bytes_equal(name, literal("ds-dcnrd")) {
        Gate::DsDcnrd
    } else if bytes_equal(name, literal("ep0-dcnrd")) {
        Gate::Ep0Dcnrd
    } else if bytes_equal(name, literal("ds-halt")) {
        Gate::DsHalt
    } else if bytes_equal(name, literal("ds-lnk0")) {
        Gate::DsLnk0
    } else if bytes_equal(name, literal("ep0-lnk0")) {
        Gate::Ep0Lnk0
    } else {
        parse_gate_value(name)
    }
}

/// Whether a gate holds of a snapshot.
pub open spec fn spec_gate_met(g: Gate, s: GateSnapshot) -> bool {
    let h = s.harvest;
    match g {
        Gate::Always => true,
        Gate::Timeout => h.outcome & 0x8000_0000 != 0,
        Gate::Done => h.outcome != NO_RECORD && h.outcome & 0x8000_0000 == 0,
        Gate::LastTimeout => h.last & 0x8000_0000 != 0,
        Gate::LastDone => h.last != NO_RECORD && h.last & 0x8000_0000 == 0,
        Gate::Setup => h.setup > 0,
        Gate::Desc => h.desc > 0,
        Gate::Statusq => h.statusq > 0,
        Gate::Armed => h.armed > 0,
        Gate::ArmFirst => h.arm_seq != NO_RECORD && h.setup_seq != NO_RECORD && h.arm_seq < h.setup_seq,
        Gate::SetupFirst => h.setup_seq != NO_RECORD && (h.arm_seq == NO_RECORD || h.arm_seq > h.setup_seq),
        Gate::Connect => h.connect > 0,
        Gate::Addr => h.addr > 0,
        Gate::Readall => h.addr2 > 0,
        Gate::Ep1None => h.ep1 == NO_RECORD,
        Gate::Ep1Wedge => h.ep1 != NO_RECORD && h.ep1 & 0x8000_0000 != 0,
        Gate::Ep1Clean => h.ep1 != NO_RECORD && h.ep1 & 0x8000_0000 == 0 && h.ep1 & 0x7f_ffff == 0x1_0000,
        Gate::Ep1Done => h.ep1 != NO_RECORD && h.ep1 & 0x8000_0000 == 0 && h.ep1 & 0xf000 == 0,
        Gate::Ep1Nores => h.ep1 != NO_RECORD && h.ep1 & 0x8000_0000 == 0 && h.ep1 & 0xf000 == 0x1000,
        Gate::Ep1StatusSuccess => h.ep1 != NO_RECORD && h.ep1 & 0xf000 == 0,
        Gate::Ep1StatusNores => h.ep1 != NO_RECORD && h.ep1 & 0xf000 == 0x1000,
        Gate::Ep1StatusBusExpiry => h.ep1 != NO_RECORD && h.ep1 & 0xf000 == 0x2000,
        Gate::Ep1StatusOther => h.ep1 != NO_RECORD && h.ep1 & 0xf000 != 0 && h.ep1 & 0xf000 != 0x1000 && h.ep1 & 0xf000 != 0x2000,
        Gate::Darm => h.darm == 0x1_0001,
        Gate::DarmFail => h.darm == 0x1_0000,
        Gate::Ep1Xfer => h.ep1_xfer != NO_RECORD,
        Gate::Ep1XferOk => h.ep1_xfer == 8,
        Gate::Ep1XferErr => h.ep1_xfer != NO_RECORD && h.ep1_xfer != 8,
        Gate::Ep1Nrdy => h.ep1_nrdy > 0,
        Gate::Post => h.post == 0x1_0007,
        Gate::PostStart => h.post != NO_RECORD && h.post & 1 != 0,
        Gate::PostEnd => h.post != NO_RECORD && h.post & 2 != 0,
        Gate::PostEvent => h.post != NO_RECORD && h.post & 4 != 0,
        Gate::PostRecord => h.post != NO_RECORD,
        Gate::WdtArmed => s.wdt_kpss_en & 1 != 0,
        Gate::WdtOff => s.wdt_kpss_en != 0xffff_ffff && s.wdt_kpss_en & 1 == 0,
        Gate::SwddOk => s.swdd_result & 0xffff_ffff == 0,
        Gate::SwddFail => s.swdd_result & 0xffff_ffff != 0,
        Gate::ScmAnsw => s.swdd_avail & 0xffff_ffff != 0xffff_ffff,
        Gate::ScmAvail => s.swdd_avail & 0xffff_ffff == 1,
        Gate::ScmNoimpl => s.swdd_avail & 0xffff_ffff == 0,
        Gate::ScmDead => s.swdd_avail & 0xffff_ffff == 0xffff_ffff,
        Gate::StdOk => s.swdd_std != 0xffff_ffff && s.swdd_std & 0xffff_ffff > 0xffff,
        Gate::StdDead => s.swdd_std == 0xffff_ffff,
        Gate::MdcrTrap => s.mdcr_el2 & 0x4000 != 0,
        Gate::MdcrClean => s.mdcr_el2 != 0xffff_ffff_ffff_ffff && s.mdcr_el2 & 0x4000 == 0,
        Gate::El1 => s.current_el & 0xf == 4,
        Gate::El2 => s.current_el & 0xf == 8,
        Gate::LnkOn => (s.dsts >> 18u32) & 0xf == 0,
        Gate::LnkEverOn => s.lnk_ever_on,
        Gate::LnkReset => (s.dsts >> 18u32) & 0xf == 1,
        Gate::LnkSuspend => (s.dsts >> 18u32) & 0xf >= 5 && (s.dsts >> 18u32) & 0xf != 0xf,
        Gate::Halt => s.dsts & DSTS_DEVCTRLHLT != 0,
        Gate::Epready => s.endpoints_ready,
        Gate::Ep0armed => s.ep0_setup_armed,
        Gate::Ep0setup => s.ep0_in_setup,
        Gate::U0Status0 => s.u0_arm_status == 0,
        Gate::U0Status1 => s.u0_arm_status == 1,
        Gate::U0Status4 => s.u0_arm_status == 4,
        Gate::U0Status5 => s.u0_arm_status == 5,
        Gate::U0Status6 => s.u0_arm_status == 6,
        Gate::U0Status8 => s.u0_arm_status == 8,
        Gate::Is2 => s.init_stage >= 2,
        Gate::Is3 => s.init_stage >= 3,
        Gate::Is4 => s.init_stage >= 4,
        Gate::Is5 => s.init_stage >= 5,
        Gate::Is6 => s.init_stage >= 6,
        Gate::DsPreRst => s.depstart_pre_dsts != NO_RECORD && (s.depstart_pre_dsts >> 11u32) & 7 == 0,
        Gate::DsPreRs => s.depstart_pre_dsts != NO_RECORD && (s.depstart_pre_dsts >> 11u32) & 7 == 1,
        Gate::DsPreSusp => s.depstart_pre_dsts != NO_RECORD && (s.depstart_pre_dsts >> 11u32) & 7 == 5,
        Gate::DsPreHalt => s.depstart_pre_dsts != NO_RECORD && s.depstart_pre_dsts & DSTS_DEVCTRLHLT != 0,
        Gate::DstsRs => (s.dsts >> 11u32) & 7 == 1,
        Gate::DstsRst => (s.dsts >> 11u32) & 7 == 0,
        Gate::DctlRun => s.dctl & DCTL_RUN_STOP != 0,
        Gate::DctlCsf => s.dctl & DCTL_CSFTRST != 0,
        Gate::DctlOk => s.dctl != 0xffff_ffff,
        Gate::DstsOk => s.dsts != 0xffff_ffff,
        Gate::PreResRst => s.pre_reset_dsts != NO_RECORD && (s.pre_reset_dsts >> 11u32) & 7 == 0,
        Gate::PreResRs => s.pre_reset_dsts != NO_RECORD && (s.pre_reset_dsts >> 11u32) & 7 == 1,
        Gate::PreResSusp => s.pre_reset_dsts != NO_RECORD && (s.pre_reset_dsts >> 11u32) & 7 == 5,
        Gate::PreResHalt => s.pre_reset_dsts != NO_RECORD && s.pre_reset_dsts & DSTS_DEVCTRLHLT != 0,
        Gate::Ep1Stuck => s.epcfg1_raw != NO_RECORD && s.epcfg1_raw & DEPCMD_CMDACT != 0,
        Gate::Ep1Lnk0 => s.epcfg1_raw != NO_RECORD && (s.epcfg1_dsts >> 18u32) & 0xf == 0,
        Gate::CfgHv => h.cfg != NO_RECORD,
        Gate::CfgHvDone => h.cfg != NO_RECORD && h.cfg & 0x8000_0000 == 0,
        Gate::CfgHvStuck => h.cfg & 0x8000_0000 != 0,
        Gate::RscHv => h.rsc != NO_RECORD,
        Gate::RscHvDone => h.rsc != NO_RECORD && h.rsc & 0x8000_0000 == 0,
        Gate::RscHvStuck => h.rsc & 0x8000_0000 != 0,
        Gate::DsStuck => s.depstart_raw != NO_RECORD && s.depstart_raw & DEPCMD_CMDACT != 0,
        Gate::DsDone => s.depstart_raw != NO_RECORD && s.depstart_raw & DEPCMD_CMDACT == 0,
        Gate::Ep0Stuck => s.epcfg0_raw != NO_RECORD && s.epcfg0_raw & DEPCMD_CMDACT != 0,
        Gate::Ep0Ok => s.epcfg0_ok,
        Gate::Ep1Ok => s.epcfg1_ok,
        Gate::DsDcnrd => s.depstart_raw != NO_RECORD && s.depstart_dsts & DSTS_DCNRD != 0,
        Gate::Ep0Dcnrd => s.epcfg0_raw != NO_RECORD && s.epcfg0_dsts & DSTS_DCNRD != 0,
        Gate::DsHalt => s.depstart_raw != NO_RECORD && s.depstart_dsts & DSTS_DEVCTRLHLT != 0,
        Gate::DsLnk0 => s.depstart_raw != NO_RECORD && (s.depstart_dsts >> 18u32) & 0xf == 0,
        Gate::Ep0Lnk0 => s.epcfg0_raw != NO_RECORD && (s.epcfg0_dsts >> 18u32) & 0xf == 0,
        Gate::Outcome { value } => h.outcome == value,
        Gate::Unmatched => false,
    }
}

/// Evaluate a gate against a snapshot.
pub fn gate_met(g: Gate, s: &GateSnapshot) -> (met: bool)
    ensures
        met == spec_gate_met(g, *s),
{
    let h = s.harvest;
    match g {
        Gate::Always => true,
        Gate::Timeout => h.outcome & 0x8000_0000 != 0,
        Gate::Done => h.outcome != NO_RECORD && h.outcome & 0x8000_0000 == 0,
        Gate::LastTimeout => h.last & 0x8000_0000 != 0,
        Gate::LastDone => h.last != NO_RECORD && h.last & 0x8000_0000 == 0,
        Gate::Setup => h.setup > 0,
        Gate::Desc => h.desc > 0,
        Gate::Statusq => h.statusq > 0,
        Gate::Armed => h.armed > 0,
        Gate::ArmFirst => h.arm_seq != NO_RECORD && h.setup_seq != NO_RECORD && h.arm_seq < h.setup_seq,
        Gate::SetupFirst => h.setup_seq != NO_RECORD && (h.arm_seq == NO_RECORD || h.arm_seq > h.setup_seq),
        Gate::Connect => h.connect > 0,
        Gate::Addr => h.addr > 0,
        Gate::Readall => h.addr2 > 0,
        Gate::Ep1None => h.ep1 == NO_RECORD,
        Gate::Ep1Wedge => h.ep1 != NO_RECORD && h.ep1 & 0x8000_0000 != 0,
        Gate::Ep1Clean => h.ep1 != NO_RECORD && h.ep1 & 0x8000_0000 == 0 && h.ep1 & 0x7f_ffff == 0x1_0000,
        Gate::Ep1Done => h.ep1 != NO_RECORD && h.ep1 & 0x8000_0000 == 0 && h.ep1 & 0xf000 == 0,
        Gate::Ep1Nores => h.ep1 != NO_RECORD && h.ep1 & 0x8000_0000 == 0 && h.ep1 & 0xf000 == 0x1000,
        Gate::Ep1StatusSuccess => h.ep1 != NO_RECORD && h.ep1 & 0xf000 == 0,
        Gate::Ep1StatusNores => h.ep1 != NO_RECORD && h.ep1 & 0xf000 == 0x1000,
        Gate::Ep1StatusBusExpiry => h.ep1 != NO_RECORD && h.ep1 & 0xf000 == 0x2000,
        Gate::Ep1StatusOther => h.ep1 != NO_RECORD && h.ep1 & 0xf000 != 0 && h.ep1 & 0xf000 != 0x1000 && h.ep1 & 0xf000 != 0x2000,
        Gate::Darm => h.darm == 0x1_0001,
        Gate::DarmFail => h.darm == 0x1_0000,
        Gate::Ep1Xfer => h.ep1_xfer != NO_RECORD,
        Gate::Ep1XferOk => h.ep1_xfer == 8,
        Gate::Ep1XferErr => h.ep1_xfer != NO_RECORD && h.ep1_xfer != 8,
        Gate::Ep1Nrdy => h.ep1_nrdy > 0,
        Gate::Post => h.post == 0x1_0007,
        Gate::PostStart => h.post != NO_RECORD && h.post & 1 != 0,
        Gate::PostEnd => h.post != NO_RECORD && h.post & 2 != 0,
        Gate::PostEvent => h.post != NO_RECORD && h.post & 4 != 0,
        Gate::PostRecord => h.post != NO_RECORD,
        Gate::WdtArmed => s.wdt_kpss_en & 1 != 0,
        Gate::WdtOff => s.wdt_kpss_en != 0xffff_ffff && s.wdt_kpss_en & 1 == 0,
        Gate::SwddOk => s.swdd_result & 0xffff_ffff == 0,
        Gate::SwddFail => s.swdd_result & 0xffff_ffff != 0,
        Gate::ScmAnsw => s.swdd_avail & 0xffff_ffff != 0xffff_ffff,
        Gate::ScmAvail => s.swdd_avail & 0xffff_ffff == 1,
        Gate::ScmNoimpl => s.swdd_avail & 0xffff_ffff == 0,
        Gate::ScmDead => s.swdd_avail & 0xffff_ffff == 0xffff_ffff,
        Gate::StdOk => s.swdd_std != 0xffff_ffff && s.swdd_std & 0xffff_ffff > 0xffff,
        Gate::StdDead => s.swdd_std == 0xffff_ffff,
        Gate::MdcrTrap => s.mdcr_el2 & 0x4000 != 0,
        Gate::MdcrClean => s.mdcr_el2 != 0xffff_ffff_ffff_ffff && s.mdcr_el2 & 0x4000 == 0,
        Gate::El1 => s.current_el & 0xf == 4,
        Gate::El2 => s.current_el & 0xf == 8,
        Gate::LnkOn => (s.dsts >> 18u32) & 0xf == 0,
        Gate::LnkEverOn => s.lnk_ever_on,
        Gate::LnkReset => (s.dsts >> 18u32) & 0xf == 1,
        Gate::LnkSuspend => (s.dsts >> 18u32) & 0xf >= 5 && (s.dsts >> 18u32) & 0xf != 0xf,
        Gate::Halt => s.dsts & DSTS_DEVCTRLHLT != 0,
        Gate::Epready => s.endpoints_ready,
        Gate::Ep0armed => s.ep0_setup_armed,
        Gate::Ep0setup => s.ep0_in_setup,
        Gate::U0Status0 => s.u0_arm_status == 0,
        Gate::U0Status1 => s.u0_arm_status == 1,
        Gate::U0Status4 => s.u0_arm_status == 4,
        Gate::U0Status5 => s.u0_arm_status == 5,
        Gate::U0Status6 => s.u0_arm_status == 6,
        Gate::U0Status8 => s.u0_arm_status == 8,
        Gate::Is2 => s.init_stage >= 2,
        Gate::Is3 => s.init_stage >= 3,
        Gate::Is4 => s.init_stage >= 4,
        Gate::Is5 => s.init_stage >= 5,
        Gate::Is6 => s.init_stage >= 6,
        Gate::DsPreRst => s.depstart_pre_dsts != NO_RECORD && (s.depstart_pre_dsts >> 11u32) & 7 == 0,
        Gate::DsPreRs => s.depstart_pre_dsts != NO_RECORD && (s.depstart_pre_dsts >> 11u32) & 7 == 1,
        Gate::DsPreSusp => s.depstart_pre_dsts != NO_RECORD && (s.depstart_pre_dsts >> 11u32) & 7 == 5,
        Gate::DsPreHalt => s.depstart_pre_dsts != NO_RECORD && s.depstart_pre_dsts & DSTS_DEVCTRLHLT != 0,
        Gate::DstsRs => (s.dsts >> 11u32) & 7 == 1,
        Gate::DstsRst => (s.dsts >> 11u32) & 7 == 0,
        Gate::DctlRun => s.dctl & DCTL_RUN_STOP != 0,
        Gate::DctlCsf => s.dctl & DCTL_CSFTRST != 0,
        Gate::DctlOk => s.dctl != 0xffff_ffff,
        Gate::DstsOk => s.dsts != 0xffff_ffff,
        Gate::PreResRst => s.pre_reset_dsts != NO_RECORD && (s.pre_reset_dsts >> 11u32) & 7 == 0,
        Gate::PreResRs => s.pre_reset_dsts != NO_RECORD && (s.pre_reset_dsts >> 11u32) & 7 == 1,
        Gate::PreResSusp => s.pre_reset_dsts != NO_RECORD && (s.pre_reset_dsts >> 11u32) & 7 == 5,
        Gate::PreResHalt => s.pre_reset_dsts != NO_RECORD && s.pre_reset_dsts & DSTS_DEVCTRLHLT != 0,
        Gate::Ep1Stuck => s.epcfg1_raw != NO_RECORD && s.epcfg1_raw & DEPCMD_CMDACT != 0,
        Gate::Ep1Lnk0 => s.epcfg1_raw != NO_RECORD && (s.epcfg1_dsts >> 18u32) & 0xf == 0,
        Gate::CfgHv => h.cfg != NO_RECORD,
        Gate::CfgHvDone => h.cfg != NO_RECORD && h.cfg & 0x8000_0000 == 0,
        Gate::CfgHvStuck => h.cfg & 0x8000_0000 != 0,
        Gate::RscHv => h.rsc != NO_RECORD,
        Gate::RscHvDone => h.rsc != NO_RECORD && h.rsc & 0x8000_0000 == 0,
        Gate::RscHvStuck => h.rsc & 0x8000_0000 != 0,
        Gate::DsStuck => s.depstart_raw != NO_RECORD && s.depstart_raw & DEPCMD_CMDACT != 0,
        Gate::DsDone => s.depstart_raw != NO_RECORD && s.depstart_raw & DEPCMD_CMDACT == 0,
        Gate::Ep0Stuck => s.epcfg0_raw != NO_RECORD && s.epcfg0_raw & DEPCMD_CMDACT != 0,
        Gate::Ep0Ok => s.epcfg0_ok,
        Gate::Ep1Ok => s.epcfg1_ok,
        Gate::DsDcnrd => s.depstart_raw != NO_RECORD && s.depstart_dsts & DSTS_DCNRD != 0,
        Gate::Ep0Dcnrd => s.epcfg0_raw != NO_RECORD && s.epcfg0_dsts & DSTS_DCNRD != 0,
        Gate::DsHalt => s.depstart_raw != NO_RECORD && s.depstart_dsts & DSTS_DEVCTRLHLT != 0,
        Gate::DsLnk0 => s.depstart_raw != NO_RECORD && (s.depstart_dsts >> 18u32) & 0xf == 0,
        Gate::Ep0Lnk0 => s.epcfg0_raw != NO_RECORD && (s.epcfg0_dsts >> 18u32) & 0xf == 0,
        Gate::Outcome { value } => h.outcome == value,
        Gate::Unmatched => false,
    }
}
/// Which gate a name that is none of the named gates selects: its text with
/// every leading `0x` removed, read as a hexadecimal outcome.
pub open spec fn spec_parse_gate_value(name: Seq<u8>) -> Gate {
    let digits = trim_hex_prefixes(name);
    if parses_hex(digits, u32::MAX as nat) {
        Gate::Outcome { value: hex_value(unsigned_digits(digits)) as u32 }
    } else {
        Gate::Unmatched
    }
}

fn parse_gate_value(name: &[u8]) -> (g: Gate)
    ensures
        g == spec_parse_gate_value(name@),
{
    match parse_u32_hex(trim_hex_prefix(name)) {
        Some(value) => Gate::Outcome { value },
        None => Gate::Unmatched,
    }
}

/// Which gate a name selects.
pub open spec fn spec_parse_gate(name: Seq<u8>) -> Gate {
    spec_parse_gate_a(name)
}

/// Parse a gate name.
pub fn parse_gate(name: &str) -> (g: Gate)
    ensures
        g == spec_parse_gate(name.spec_bytes()),
{
    parse_gate_a(name.as_bytes())
}

/// The attach gate's verdict for the configured gate name: no verdict
/// without a gate, for a name that is neither a known gate nor a
/// hexadecimal outcome, or for `mrad` (which sends the probe on to its tail
/// readout); otherwise whether the named gate holds.
pub open spec fn spec_cmd_gate(setting: Option<Seq<u8>>, s: GateSnapshot) -> Option<bool> {
    match setting {
        None => None,
        Some(name) => if name == ascii("mrad"@) {
            None
        } else {
            match spec_parse_gate(name) {
                Gate::Unmatched => None,
                g => Some(spec_gate_met(g, s)),
            }
        },
    }
}

/// The view of an optional gate name.
pub open spec fn setting_bytes(setting: Option<&str>) -> Option<Seq<u8>> {
    match setting {
        Some(name) => Some(name.spec_bytes()),
        None => None,
    }
}

/// Evaluate the configured attach gate against a snapshot taken after the
/// harvest of this run's trace.
pub fn cmd_gate_condition_met(setting: Option<&str>, s: &GateSnapshot) -> (r: Option<bool>)
    ensures
        r == spec_cmd_gate(setting_bytes(setting), *s),
{
    match setting {
        None => None,
        Some(name) => {
            proof {
                reveal_strlit("mrad");
            }
            if bytes_equal(name.as_bytes(), literal("mrad")) {
                None
            } else {
                match parse_gate(name) {
                    Gate::Unmatched => None,
                    g => Some(gate_met(g, s)),
                }
            }
        },
    }
}

} // verus!
