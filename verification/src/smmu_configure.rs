//! Configuring the Apps-SMMU for the DWC3 stream as a step machine. The
//! caller reads what each step names and reports it; the machine decides
//! the next step or the result, in the order of the configuration: the
//! fault poller is detached first, the DMA pool is checked before any SMMU
//! register is read, then the identification registers, the stream match,
//! the bank choice (a firmware bypass is kept with nothing written), a live
//! bank that already maps the section, the identity tables and the S2CR.

use vstd::prelude::*;
use crate::smmu::{
    after_scan, geometry_precheck, keep_live_context, no_fault_context, pool_precheck,
    spec_after_scan, spec_geometry_precheck, spec_no_fault_context, spec_pool_precheck,
    translate_s2cr_accepted, FaultContext, ScanOutcome, SmmuConfigureError, SmmuGeometry,
};
use crate::mmio::{SMMU_S2CR_CBNDX_MASK, SMMU_S2CR_TYPE_MASK, SMMU_S2CR_TYPE_TRANS, SMMU_SCTLR_M};

verus! {

/// One step of the configuration.
#[derive(Clone, Copy, PartialEq, Eq, Debug)]
pub enum SmmuConfigStep {
    /// Check the declared pool against the linker DMA section (no SMMU
    /// register is read).
    CheckPool,
    /// Read ID0 and ID1.
    ReadIds,
    /// Scan the stream-match registers for the DWC3 stream; report the
    /// first match and its S2CR.
    ScanStreams { geometry: SmmuGeometry },
    /// Read the live bank's SCTLR and check whether its tables map the DMA
    /// section as an identity.
    CheckLiveContext { smr_index: usize, old_s2cr: u32, cbndx: usize, irptndx: usize },
    /// Build the identity tables for the pool; report whether they could be.
    InstallTables { smr_index: usize, old_s2cr: u32, cbndx: usize, irptndx: usize },
    /// Program the bank (`context_program`), write the S2CR and report its
    /// readback.
    ProgramContext { smr_index: usize, old_s2cr: u32, cbndx: usize, irptndx: usize },
}

/// Where a configuration stands: its step and the fault poller's context.
#[derive(Clone, Copy, PartialEq, Eq, Debug)]
pub struct SmmuConfig {
    pub step: SmmuConfigStep,
    pub fault: FaultContext,
}

/// What the caller read for a step.
#[derive(Clone, Copy, PartialEq, Eq, Debug)]
pub enum SmmuConfigRead {
    Pool { pool_base: usize, pool_size: usize, dma_start: usize, dma_end: usize },
    Ids { id0: u32, id1: u32 },
    Match { matched: Option<(usize, u32)> },
    Live { sctlr: u32, maps_identity: bool },
    Tables { built: bool },
    S2cr { readback: u32 },
}

/// What follows a step.
#[derive(Clone, Copy, PartialEq, Eq, Debug)]
pub enum SmmuConfigNext {
    Step(SmmuConfig),
    /// The configuration is over with this result; the fault poller keeps
    /// `fault`.
    Finished { result: Result<(), SmmuConfigureError>, fault: FaultContext },
}

/// Whether a read is the kind the step asks for.
pub open spec fn read_fits(step: SmmuConfigStep, read: SmmuConfigRead) -> bool {
    match step {
        SmmuConfigStep::CheckPool => read is Pool,
        SmmuConfigStep::ReadIds => read is Ids,
        SmmuConfigStep::ScanStreams { .. } => read is Match,
        SmmuConfigStep::CheckLiveContext { .. } => read is Live,
        SmmuConfigStep::InstallTables { .. } => read is Tables,
        SmmuConfigStep::ProgramContext { .. } => read is S2cr,
    }
}

/// Whether a configuration's state is one the machine reaches: a scanned
/// geometry has a context bank and at most 256 pages and banks.
pub open spec fn smmu_config_wf(c: SmmuConfig) -> bool {
    match c.step {
        SmmuConfigStep::ScanStreams { geometry } => 1 <= geometry.num_context_banks <= 256
            && geometry.num_pages <= 256,
        _ => true,
    }
}

/// The configuration at its start: the pool check, with the fault poller
/// detached from any bank of an earlier configuration.
pub open spec fn spec_smmu_configure_begin() -> SmmuConfig {
    SmmuConfig { step: SmmuConfigStep::CheckPool, fault: spec_no_fault_context() }
}

/// Begin a configuration.
pub fn smmu_configure_begin() -> (c: SmmuConfig)
    ensures
        c == spec_smmu_configure_begin(),
        smmu_config_wf(c),
{
    SmmuConfig { step: SmmuConfigStep::CheckPool, fault: no_fault_context() }
}

/// The step that uses bank `cbndx` after the scan: a bank that already
/// translated the stream is checked first, else the tables are installed.
pub open spec fn after_context(smr_index: usize, old_s2cr: u32, cbndx: usize, irptndx: usize, live: bool) -> SmmuConfigStep {
    if live {
        SmmuConfigStep::CheckLiveContext { smr_index, old_s2cr, cbndx, irptndx }
    } else {
        SmmuConfigStep::InstallTables { smr_index, old_s2cr, cbndx, irptndx }
    }
}

/// What follows step `c.step` given what was read for it.
pub open spec fn spec_smmu_configure_next(c: SmmuConfig, read: SmmuConfigRead, context_irq_count: usize) -> SmmuConfigNext {
    match (c.step, read) {
        (SmmuConfigStep::CheckPool, SmmuConfigRead::Pool { pool_base, pool_size, dma_start, dma_end }) => match spec_pool_precheck(
            pool_base,
            pool_size,
            dma_start,
            dma_end,
        ) {
            Err(e) => SmmuConfigNext::Finished { result: Err(e), fault: c.fault },
            Ok(()) => SmmuConfigNext::Step(SmmuConfig { step: SmmuConfigStep::ReadIds, ..c }),
        },
        (SmmuConfigStep::ReadIds, SmmuConfigRead::Ids { id0, id1 }) => match spec_geometry_precheck(id0, id1) {
            Err(e) => SmmuConfigNext::Finished { result: Err(e), fault: c.fault },
            Ok(geometry) => SmmuConfigNext::Step(SmmuConfig { step: SmmuConfigStep::ScanStreams { geometry }, ..c }),
        },
        (SmmuConfigStep::ScanStreams { geometry }, SmmuConfigRead::Match { matched }) => match spec_after_scan(
            matched,
            geometry,
            context_irq_count,
        ) {
            ScanOutcome::Done { result } => SmmuConfigNext::Finished { result: result, fault: c.fault },
            ScanOutcome::Context { cbndx, irptndx, live, fault } => match matched {
                Some((smr_index, old_s2cr)) => SmmuConfigNext::Step(
                    SmmuConfig { step: after_context(smr_index, old_s2cr, cbndx, irptndx, live), fault },
                ),
                None => SmmuConfigNext::Step(
                    SmmuConfig { step: after_context(0, 0, cbndx, irptndx, live), fault },
                ),
            },
        },
        (
            SmmuConfigStep::CheckLiveContext { smr_index, old_s2cr, cbndx, irptndx },
            SmmuConfigRead::Live { sctlr, maps_identity },
        ) => if sctlr & SMMU_SCTLR_M != 0 && maps_identity {
            SmmuConfigNext::Finished { result: Ok(()), fault: c.fault }
        } else {
            SmmuConfigNext::Step(
                SmmuConfig { step: SmmuConfigStep::InstallTables { smr_index, old_s2cr, cbndx, irptndx }, ..c },
            )
        },
        (SmmuConfigStep::InstallTables { smr_index, old_s2cr, cbndx, irptndx }, SmmuConfigRead::Tables { built }) => if built {
            SmmuConfigNext::Step(
                SmmuConfig { step: SmmuConfigStep::ProgramContext { smr_index, old_s2cr, cbndx, irptndx }, ..c },
            )
        } else {
            SmmuConfigNext::Finished { result: Err(SmmuConfigureError::PoolNotMappable), fault: c.fault }
        },
        (SmmuConfigStep::ProgramContext { cbndx, .. }, SmmuConfigRead::S2cr { readback }) => if readback
            & SMMU_S2CR_TYPE_MASK == SMMU_S2CR_TYPE_TRANS && (readback & SMMU_S2CR_CBNDX_MASK) as usize
            == cbndx {
            SmmuConfigNext::Finished { result: Ok(()), fault: c.fault }
        } else {
            SmmuConfigNext::Finished { result: Err(SmmuConfigureError::TranslationRejected), fault: c.fault }
        },
        _ => SmmuConfigNext::Finished { result: Err(SmmuConfigureError::IdsUnavailable), fault: c.fault },
    }
}

/// What follows step `c.step` of a configuration, given what was read for
/// it and the provider's number of context interrupts.
pub fn smmu_configure_next(c: SmmuConfig, read: SmmuConfigRead, context_irq_count: usize) -> (n: SmmuConfigNext)
    requires
        smmu_config_wf(c),
        read_fits(c.step, read),
    ensures
        n == spec_smmu_configure_next(c, read, context_irq_count),
        n matches SmmuConfigNext::Step(d) ==> smmu_config_wf(d),
{
    match (c.step, read) {
        (SmmuConfigStep::CheckPool, SmmuConfigRead::Pool { pool_base, pool_size, dma_start, dma_end }) => match pool_precheck(
            pool_base,
            pool_size,
            dma_start,
            dma_end,
        ) {
            Err(e) => SmmuConfigNext::Finished { result: Err(e), fault: c.fault },
            Ok(()) => SmmuConfigNext::Step(SmmuConfig { step: SmmuConfigStep::ReadIds, ..c }),
        },
        (SmmuConfigStep::ReadIds, SmmuConfigRead::Ids { id0, id1 }) => match geometry_precheck(id0, id1) {
            Err(e) => SmmuConfigNext::Finished { result: Err(e), fault: c.fault },
            Ok(geometry) => SmmuConfigNext::Step(SmmuConfig { step: SmmuConfigStep::ScanStreams { geometry }, ..c }),
        },
        (SmmuConfigStep::ScanStreams { geometry }, SmmuConfigRead::Match { matched }) => match after_scan(
            matched,
            geometry,
            context_irq_count,
        ) {
            ScanOutcome::Done { result } => SmmuConfigNext::Finished { result, fault: c.fault },
            ScanOutcome::Context { cbndx, irptndx, live, fault } => {
                let (smr_index, old_s2cr) = match matched {
                    Some(m) => m,
                    None => (0, 0),
                };
                let step = if live {
                    SmmuConfigStep::CheckLiveContext { smr_index, old_s2cr, cbndx, irptndx }
                } else {
                    SmmuConfigStep::InstallTables { smr_index, old_s2cr, cbndx, irptndx }
                };
                SmmuConfigNext::Step(SmmuConfig { step, fault })
            },
        },
        (
            SmmuConfigStep::CheckLiveContext { smr_index, old_s2cr, cbndx, irptndx },
            SmmuConfigRead::Live { sctlr, maps_identity },
        ) => if keep_live_context(sctlr, maps_identity) {
            SmmuConfigNext::Finished { result: Ok(()), fault: c.fault }
        } else {
            SmmuConfigNext::Step(
                SmmuConfig { step: SmmuConfigStep::InstallTables { smr_index, old_s2cr, cbndx, irptndx }, ..c },
            )
        },
        (SmmuConfigStep::InstallTables { smr_index, old_s2cr, cbndx, irptndx }, SmmuConfigRead::Tables { built }) => if built {
            SmmuConfigNext::Step(
                SmmuConfig { step: SmmuConfigStep::ProgramContext { smr_index, old_s2cr, cbndx, irptndx }, ..c },
            )
        } else {
            SmmuConfigNext::Finished { result: Err(SmmuConfigureError::PoolNotMappable), fault: c.fault }
        },
        (SmmuConfigStep::ProgramContext { cbndx, .. }, SmmuConfigRead::S2cr { readback }) => if translate_s2cr_accepted(
            readback,
            cbndx,
        ) {
            SmmuConfigNext::Finished { result: Ok(()), fault: c.fault }
        } else {
            SmmuConfigNext::Finished { result: Err(SmmuConfigureError::TranslationRejected), fault: c.fault }
        },
        _ => SmmuConfigNext::Finished { result: Err(SmmuConfigureError::IdsUnavailable), fault: c.fault },
    }
}

/// The configuration's order: it begins detached from any bank and with the
/// pool check; a pool that does not hold the DMA section ends it with the
/// poller still detached and before any SMMU register is read; and a
/// stream the firmware left in bypass ends it successfully with nothing
/// written (no bank step follows).
pub proof fn lemma_smmu_configure_order(
    pool_base: usize,
    pool_size: usize,
    dma_start: usize,
    dma_end: usize,
    geometry: SmmuGeometry,
    fault: FaultContext,
    smr_index: usize,
    old_s2cr: u32,
    context_irq_count: usize,
)
    ensures
        spec_smmu_configure_begin().step == SmmuConfigStep::CheckPool,
        spec_smmu_configure_begin().fault == spec_no_fault_context(),
        spec_pool_precheck(pool_base, pool_size, dma_start, dma_end) is Err ==> spec_smmu_configure_next(
            spec_smmu_configure_begin(),
            SmmuConfigRead::Pool { pool_base, pool_size, dma_start, dma_end },
            context_irq_count,
        ) == (SmmuConfigNext::Finished {
            result: Err(spec_pool_precheck(pool_base, pool_size, dma_start, dma_end)->Err_0),
            fault: spec_no_fault_context(),
        }),
        old_s2cr & SMMU_S2CR_TYPE_MASK == crate::mmio::SMMU_S2CR_TYPE_BYPASS ==> spec_smmu_configure_next(
            SmmuConfig { step: SmmuConfigStep::ScanStreams { geometry }, fault },
            SmmuConfigRead::Match { matched: Some((smr_index, old_s2cr)) },
            context_irq_count,
        ) == (SmmuConfigNext::Finished { result: Ok(()), fault }),
{
}

} // verus!
