use fullerene_usb::smmu::{FaultContext, SmmuConfigureError, SmmuGeometry};
use fullerene_usb::smmu_configure::{
    smmu_configure_begin, smmu_configure_next, SmmuConfig, SmmuConfigNext, SmmuConfigRead,
    SmmuConfigStep,
};

const ID0: u32 = 0x0000_0040; // 64 stream-match registers
const ID1: u32 = 0x1008_0010; // 4 global pages, 8 stage-2 banks, 16 banks
const POOL: SmmuConfigRead =
    SmmuConfigRead::Pool { pool_base: 0x9000_0000, pool_size: 0x6000_0000, dma_start: 0x9000_0000, dma_end: 0x9100_0000 };

fn step(n: SmmuConfigNext) -> SmmuConfig {
    match n {
        SmmuConfigNext::Step(c) => c,
        SmmuConfigNext::Finished { result, .. } => panic!("configuration ended early: {:?}", result),
    }
}

fn scanned() -> SmmuConfig {
    let c = step(smmu_configure_next(smmu_configure_begin(), POOL, 4));
    assert_eq!(c.step, SmmuConfigStep::ReadIds);
    step(smmu_configure_next(c, SmmuConfigRead::Ids { id0: ID0, id1: ID1 }, 4))
}

#[test]
fn smmu_configure_starts_detached_with_the_pool_check() {
    let c = smmu_configure_begin();
    assert_eq!(c.step, SmmuConfigStep::CheckPool);
    assert_eq!(c.fault, FaultContext { page: usize::MAX, page_size: 0 });
}

#[test]
fn smmu_configure_refuses_a_bad_pool_first() {
    let bad = SmmuConfigRead::Pool { pool_base: 0x9000_0000, pool_size: 0x6000_0000, dma_start: 0x8000_0000, dma_end: 0x9100_0000 };
    assert_eq!(
        smmu_configure_next(smmu_configure_begin(), bad, 4),
        SmmuConfigNext::Finished {
            result: Err(SmmuConfigureError::SectionOutsidePool),
            fault: FaultContext { page: usize::MAX, page_size: 0 },
        }
    );
    let wraps = SmmuConfigRead::Pool { pool_base: usize::MAX, pool_size: 2, dma_start: 0, dma_end: 1 };
    assert_eq!(
        smmu_configure_next(smmu_configure_begin(), wraps, 4),
        SmmuConfigNext::Finished {
            result: Err(SmmuConfigureError::InvalidPool),
            fault: FaultContext { page: usize::MAX, page_size: 0 },
        }
    );
}

#[test]
fn smmu_configure_checks_the_ids() {
    let c = step(smmu_configure_next(smmu_configure_begin(), POOL, 4));
    assert_eq!(
        smmu_configure_next(c, SmmuConfigRead::Ids { id0: ID0, id1: ID1 | 0x8000_0000 }, 4),
        SmmuConfigNext::Finished { result: Err(SmmuConfigureError::Unsupported64K), fault: c.fault }
    );
    let s = scanned();
    assert_eq!(
        s.step,
        SmmuConfigStep::ScanStreams {
            geometry: SmmuGeometry { num_smrs: 64, num_pages: 4, num_s2_context_banks: 8, num_context_banks: 16, page_size: 0x1000 },
        }
    );
    assert_eq!(s.fault, FaultContext { page: usize::MAX, page_size: 0 });
}

#[test]
fn smmu_configure_keeps_a_firmware_bypass() {
    let s = scanned();
    assert_eq!(
        smmu_configure_next(s, SmmuConfigRead::Match { matched: Some((3, 0x1_0005)) }, 4),
        SmmuConfigNext::Finished { result: Ok(()), fault: s.fault }
    );
    assert_eq!(
        smmu_configure_next(s, SmmuConfigRead::Match { matched: None }, 4),
        SmmuConfigNext::Finished { result: Err(SmmuConfigureError::NoStreamMatch), fault: s.fault }
    );
}

#[test]
fn smmu_configure_reuses_a_live_identity_bank() {
    let live = step(smmu_configure_next(scanned(), SmmuConfigRead::Match { matched: Some((3, 9)) }, 4));
    assert_eq!(live.step, SmmuConfigStep::CheckLiveContext { smr_index: 3, old_s2cr: 9, cbndx: 9, irptndx: 1 });
    assert_eq!(live.fault, FaultContext { page: 13, page_size: 0x1000 });
    assert_eq!(
        smmu_configure_next(live, SmmuConfigRead::Live { sctlr: 1, maps_identity: true }, 4),
        SmmuConfigNext::Finished { result: Ok(()), fault: FaultContext { page: 13, page_size: 0x1000 } }
    );
    // A disabled bank gets the tables installed.
    let install = step(smmu_configure_next(live, SmmuConfigRead::Live { sctlr: 0, maps_identity: true }, 4));
    assert_eq!(install.step, SmmuConfigStep::InstallTables { smr_index: 3, old_s2cr: 9, cbndx: 9, irptndx: 1 });
}

#[test]
fn smmu_configure_programs_the_last_bank() {
    let install = step(smmu_configure_next(scanned(), SmmuConfigRead::Match { matched: Some((0, 0x2_0000)) }, 0));
    assert_eq!(install.step, SmmuConfigStep::InstallTables { smr_index: 0, old_s2cr: 0x2_0000, cbndx: 15, irptndx: 15 });
    assert_eq!(install.fault, FaultContext { page: 19, page_size: 0x1000 });
    assert_eq!(
        smmu_configure_next(install, SmmuConfigRead::Tables { built: false }, 0),
        SmmuConfigNext::Finished { result: Err(SmmuConfigureError::PoolNotMappable), fault: install.fault }
    );
    let program = step(smmu_configure_next(install, SmmuConfigRead::Tables { built: true }, 0));
    assert_eq!(program.step, SmmuConfigStep::ProgramContext { smr_index: 0, old_s2cr: 0x2_0000, cbndx: 15, irptndx: 15 });
    assert_eq!(
        smmu_configure_next(program, SmmuConfigRead::S2cr { readback: 15 }, 0),
        SmmuConfigNext::Finished { result: Ok(()), fault: program.fault }
    );
    assert_eq!(
        smmu_configure_next(program, SmmuConfigRead::S2cr { readback: 0x1_000f }, 0),
        SmmuConfigNext::Finished { result: Err(SmmuConfigureError::TranslationRejected), fault: program.fault }
    );
}
