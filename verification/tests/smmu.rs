use fullerene_usb::smmu::{
    adoptable_event_iova, build_identity_tables, bypass_claim_verified, bypass_plan,
    bypass_s2cr_value, choose_context, pool_precheck, geometry_precheck, no_fault_context, after_scan, ScanOutcome, FaultContext, context_fault_action, context_program,
    context_translates, event_ring_iova, first_free_smr, first_matching_smr,
    global_fault_pending, keep_live_context, probe_code_for_s2cr, s2cr_type_code, smmu_geometry,
    smmu_walk_begin, smmu_walk_next, smr_count, smr_matches_stream, stream_ladder,
    translate_context_bank, translate_s2cr_accepted, s2cr_kind, stream_probe_code, S2crKind, BypassPlan, ContextChoice,
    FaultAction, IdentityTables, SmmuConfigureError, SmmuGeometry, StreamLadder, WalkStep,
    IDENTITY_BLOCK_FLAGS,
};
use std::collections::HashMap;

const ID0: u32 = 0x0000_0040; // 64 stream-match registers
const ID1: u32 = 0x1008_0010; // 4 global pages, 8 stage-2 banks, 16 banks

fn run_walk(mem: &HashMap<u64, u64>, ttbr0: u64, three_level: bool, iova: u64) -> Option<u64> {
    let mut step = smmu_walk_begin(ttbr0, three_level, iova);
    for _ in 0..3 {
        match step {
            WalkStep::Done { output } => return output,
            WalkStep::Read { address, state } => {
                let descriptor = *mem.get(&address).unwrap_or(&0);
                step = smmu_walk_next(state, descriptor);
            }
        }
    }
    match step {
        WalkStep::Done { output } => output,
        WalkStep::Read { .. } => None,
    }
}

fn place(tables: &IdentityTables, l1_base: u64, l2_base: u64) -> HashMap<u64, u64> {
    let mut mem = HashMap::new();
    for (i, e) in tables.l1.iter().enumerate() {
        mem.insert(l1_base + 8 * i as u64, *e);
    }
    for (k, e) in tables.l2.iter().enumerate() {
        mem.insert(l2_base + 8 * k as u64, *e);
    }
    mem
}

#[test]
fn identity_tables_map_exactly_the_pool() {
    let l1_base = 0x8000_0000u64;
    let l2_base = 0x8000_4000u64;
    let pool_base = 0x9000_0000u64;
    let pool_size = 0x60_0000u64;
    let t = build_identity_tables(pool_base, pool_size, l2_base).unwrap();
    assert_eq!(t.l1.len(), 512);
    assert_eq!(t.l2.len(), 2048);
    assert_eq!(t.l1[2], (l2_base + 0x2000) | 3);
    assert_eq!(t.l1[0], 0);
    assert_eq!(t.l2[0x480], 0x9000_0000 | IDENTITY_BLOCK_FLAGS);
    let mem = place(&t, l1_base, l2_base);
    for iova in [0x9000_0000u64, 0x9000_1000, 0x901f_f000, 0x905f_f000] {
        assert_eq!(run_walk(&mem, l1_base, true, iova), Some(iova));
    }
    for iova in [0x8fff_f000u64, 0x9060_0000, 0x0, 0x1_0000_0000, 0x40_0000_0000] {
        assert_eq!(run_walk(&mem, l1_base, true, iova), None);
    }
}

#[test]
fn identity_tables_refuse_unmappable_pools() {
    assert!(build_identity_tables(0x9000_1000, 0x20_0000, 0x1000).is_none());
    assert!(build_identity_tables(0x9000_0000, 0x10_0000, 0x1000).is_none());
    assert!(build_identity_tables(0xffe0_0000, 0x40_0000, 0x1000).is_none());
    assert!(build_identity_tables(0x9000_0000, 0, 0x1000).is_none());
    assert!(build_identity_tables(u64::MAX - 0xf_ffff, 0x20_0000, 0x1000).is_none());
}

#[test]
fn walk_of_a_two_level_table_and_three_level_pages() {
    let mut mem = HashMap::new();
    // 32-bit context: the root is the level-2 table; a 2 MiB block.
    mem.insert(0x1000 + 8 * 0x80, 0xa000_0000u64 | 1);
    assert_eq!(run_walk(&mem, 0x1000, false, 0x1000_3000), Some(0xa000_3000));
    // A table entry leading to a level-3 page.
    mem.insert(0x1000 + 8 * 0x81, 0x5000u64 | 3);
    mem.insert(0x5000 + 8 * 2, 0x7777_7000u64 | 3);
    assert_eq!(run_walk(&mem, 0x1000, false, 0x1020_2000), None);
    mem.insert(0x5000 + 8 * 2, 0x7777_7000u64 | 1);
    assert_eq!(run_walk(&mem, 0x1000, false, 0x1020_2000), Some(0x7777_7000));
    // An invalid entry ends the walk.
    assert_eq!(run_walk(&mem, 0x1000, false, 0x0000_0000), None);
}

#[test]
fn geometry_decodes_id_registers() {
    assert_eq!(smr_count(0x40), 64);
    assert_eq!(smr_count(0xff), 128);
    let g = smmu_geometry(ID0, ID1).unwrap();
    assert_eq!(g.num_smrs, 64);
    assert_eq!(g.num_pages, 4);
    assert_eq!(g.num_s2_context_banks, 8);
    assert_eq!(g.num_context_banks, 16);
    assert_eq!(g.page_size, 0x1000);
    assert!(smmu_geometry(0, ID1).is_none());
    assert!(smmu_geometry(ID0, u32::MAX).is_none());
    assert_eq!(smmu_geometry(ID0, ID1 | 0x8000_0000).unwrap().page_size, 0x10000);
}

#[test]
fn stream_match_registers() {
    let exact = 0x8000_0000 | 0xe0;
    let masked = 0x8000_0000 | (0x0f << 16) | 0xe0;
    assert!(smr_matches_stream(exact, 0xe0));
    assert!(!smr_matches_stream(exact, 0xe1));
    assert!(smr_matches_stream(masked, 0xe7));
    assert!(!smr_matches_stream(0xe0, 0xe0));
    let smrs = [0x8000_0001u32, 0, exact, 0];
    assert_eq!(first_matching_smr(&smrs, 0xe0), Some(2));
    assert_eq!(first_matching_smr(&smrs, 0x55), None);
    assert_eq!(first_free_smr(&smrs), Some(1));
    assert_eq!(first_free_smr(&[0x8000_0000u32]), None);
}

#[test]
fn stream_ladder_codes() {
    let smrs = [0u32; 64];
    assert_eq!(stream_ladder(0, ID1, 0xe0, &[]), StreamLadder::Code { code: 254 });
    assert_eq!(stream_ladder(0x100, ID1, 0xe0, &[]), StreamLadder::Code { code: 253 });
    assert_eq!(stream_ladder(ID0, ID1, 0xe0, &smrs), StreamLadder::Code { code: 251 });
    let mut other = smrs;
    other[3] = 0x8000_0011;
    assert_eq!(stream_ladder(ID0, ID1, 0xe0, &other), StreamLadder::Code { code: 252 });
    other[5] = 0x8000_00e0;
    assert_eq!(stream_ladder(ID0, ID1, 0xe0, &other), StreamLadder::ReadS2cr { index: 5 });
    assert_eq!(s2cr_type_code(0x2_0003), 2);
    assert_eq!(probe_code_for_s2cr(0x1_0000), Some(7));
    assert_eq!(probe_code_for_s2cr(0x0_0005), Some(6));
    assert_eq!(probe_code_for_s2cr(0x2_0000), None);
    assert_eq!(probe_code_for_s2cr(0x3_0000), None);
    assert_eq!(s2cr_kind(0x2_0003), S2crKind::Fault);
    assert_eq!(s2cr_kind(0x3_0000), S2crKind::Reserved);
    assert_eq!(s2cr_kind(0x0_0003), S2crKind::Translate);
    assert_eq!(stream_probe_code(StreamLadder::Code { code: 254 }, 0), Some(9));
    assert_eq!(stream_probe_code(StreamLadder::Code { code: 252 }, 0), Some(8));
    assert_eq!(stream_probe_code(StreamLadder::Code { code: 253 }, 0), Some(8));
    assert_eq!(stream_probe_code(StreamLadder::ReadS2cr { index: 2 }, 0x1_0000), Some(7));
    assert_eq!(stream_probe_code(StreamLadder::ReadS2cr { index: 2 }, 0), Some(6));
    assert_eq!(stream_probe_code(StreamLadder::ReadS2cr { index: 2 }, 0x2_0000), None);
}

#[test]
fn translate_context_bank_needs_a_translate_entry_in_range() {
    assert_eq!(translate_context_bank(0x0000_0003, 16), Some(3));
    assert_eq!(translate_context_bank(0x0000_0013, 16), None);
    assert_eq!(translate_context_bank(0x0001_0003, 16), None);
}

#[test]
fn bypass_claim_plan() {
    let mut smrs = [0x8000_0000u32 | 0x11; 4];
    assert_eq!(bypass_plan(0, ID1, 0xe0, &smrs, false), BypassPlan::Fail);
    let id0 = 4;
    assert_eq!(bypass_plan(id0, ID1, 0xe0, &smrs, false), BypassPlan::Fail);
    smrs[2] = 0;
    assert_eq!(
        bypass_plan(id0, ID1, 0x1_00e0, &smrs, false),
        BypassPlan::Claim { index: 2, smr_value: 0x8000_00e0 }
    );
    assert_eq!(
        bypass_plan(id0, ID1, 0xe0, &smrs, true),
        BypassPlan::Claim { index: 2, smr_value: 0xffff_0000 }
    );
    smrs[3] = 0x8000_00e0;
    assert_eq!(bypass_plan(id0, ID1, 0xe0, &smrs, false), BypassPlan::AlreadyOwned { index: 3 });
    assert_eq!(bypass_s2cr_value(0x0002_0305), 0x0001_0305);
    assert!(bypass_claim_verified(0x8000_00e0, 0x8000_00e0, 0x1_0000));
    assert!(!bypass_claim_verified(0x8000_00e0, 0x8000_00e0, 0x2_0000));
    assert!(!bypass_claim_verified(0x0000_00e0, 0x0000_00e0, 0x1_0000));
}

#[test]
fn event_ring_adoption_checks() {
    assert_eq!(event_ring_iova(0x1, 0x2000), 0x1_0000_2000);
    assert!(adoptable_event_iova(0x9000_0000, false));
    assert!(!adoptable_event_iova(0x9000_0010, false));
    assert!(!adoptable_event_iova(0x1_0000_0000, false));
    assert!(adoptable_event_iova(0x1_0000_0000, true));
    assert!(!adoptable_event_iova(0, true));
    assert!(context_translates(1));
    assert!(!context_translates(0x40));
}

#[test]
fn fault_servicing() {
    assert!(global_fault_pending(0x8000_0002));
    assert!(!global_fault_pending(0x8000_0000));
    assert!(!global_fault_pending(0));
    assert!(!global_fault_pending(u32::MAX));
    assert_eq!(context_fault_action(0), None);
    assert_eq!(context_fault_action(2), Some(FaultAction { clear: 2, terminate: false }));
    assert_eq!(context_fault_action(0x4000_0002), Some(FaultAction { clear: 0x4000_0002, terminate: true }));
}

#[test]
fn configure_prechecks_in_order() {
    let pool = 0x9000_0000usize;
    let size = 0x6000_0000usize;
    // The pool is refused before any SMMU register value is needed.
    assert_eq!(pool_precheck(usize::MAX, 2, 0, 1), Err(SmmuConfigureError::InvalidPool));
    assert_eq!(pool_precheck(pool, size, 0x8000_0000, 0x9100_0000), Err(SmmuConfigureError::SectionOutsidePool));
    assert_eq!(pool_precheck(pool, size, 0x9100_0000, 0x9100_0000), Err(SmmuConfigureError::SectionOutsidePool));
    assert_eq!(pool_precheck(pool, size, 0x9000_0000, 0x9100_0000), Ok(()));
    assert_eq!(geometry_precheck(0, ID1), Err(SmmuConfigureError::IdsUnavailable));
    assert_eq!(geometry_precheck(ID0, ID1 | 0x8000_0000), Err(SmmuConfigureError::Unsupported64K));
    assert_eq!(geometry_precheck(ID0, 0x1008_0000), Err(SmmuConfigureError::NoContextBanks));
    assert_eq!(
        geometry_precheck(ID0, ID1),
        Ok(SmmuGeometry { num_smrs: 64, num_pages: 4, num_s2_context_banks: 8, num_context_banks: 16, page_size: 0x1000 })
    );
    assert_eq!(no_fault_context(), FaultContext { page: usize::MAX, page_size: 0 });
}

#[test]
fn configure_after_scan() {
    let g = geometry_precheck(ID0, ID1).unwrap();
    assert_eq!(after_scan(None, g, 4), ScanOutcome::Done { result: Err(SmmuConfigureError::NoStreamMatch) });
    // A firmware bypass is kept: success with nothing written.
    assert_eq!(after_scan(Some((3, 0x1_0005)), g, 4), ScanOutcome::Done { result: Ok(()) });
    // A live translating bank inside the stage-1 range is reused.
    assert_eq!(
        after_scan(Some((3, 9)), g, 4),
        ScanOutcome::Context { cbndx: 9, irptndx: 1, live: true, fault: FaultContext { page: 13, page_size: 0x1000 } }
    );
    assert_eq!(after_scan(Some((3, 2)), g, 4), ScanOutcome::Done { result: Err(SmmuConfigureError::ContextBankOutOfRange) });
    // A faulting stream takes the last bank.
    assert_eq!(
        after_scan(Some((0, 0x2_0000)), g, 0),
        ScanOutcome::Context { cbndx: 15, irptndx: 15, live: false, fault: FaultContext { page: 19, page_size: 0x1000 } }
    );
}

#[test]
fn context_choice() {
    let g = smmu_geometry(ID0, ID1).unwrap();
    assert_eq!(choose_context(0x1_0000, g, 4), Ok(ContextChoice::PreserveBypass));
    assert_eq!(
        choose_context(0x0000_000a, g, 4),
        Ok(ContextChoice::Translate { cbndx: 10, irptndx: 2, live: true })
    );
    assert_eq!(choose_context(0x0000_0003, g, 4), Err(SmmuConfigureError::ContextBankOutOfRange));
    assert_eq!(
        choose_context(0x2_0000, g, 0),
        Ok(ContextChoice::Translate { cbndx: 15, irptndx: 15, live: false })
    );
    assert!(keep_live_context(1, true));
    assert!(!keep_live_context(0, true));
    assert!(!keep_live_context(1, false));
}

#[test]
fn context_programming_values() {
    let p = context_program(0x0002_0305, 15, 3, false);
    assert_eq!(p.cba2r, 1);
    assert_eq!(p.cbar, 0x1_0000 | 0xf000 | 0x300 | 3);
    assert_eq!(p.tcr2, 0x3_8000 | 0x10 | 2);
    assert_eq!(p.tcr, 0x80_0000 | 0x3000 | 0x400 | 0x100 | 32);
    assert_eq!(context_program(0, 0, 0, true).tcr & 0x3f, 25);
    assert_eq!(p.sctlr, 0x1000 | 0x40 | 0x20 | 4 | 2 | 1);
    assert_eq!(p.s2cr, 0x0000_030f);
    assert!(translate_s2cr_accepted(0x0000_030f, 15));
    assert!(!translate_s2cr_accepted(0x0001_030f, 15));
    assert!(!translate_s2cr_accepted(0x0000_030e, 15));
}

use fullerene_usb::smmu::{
    adoption, context_geometry, identity_check_begin, identity_check_next, scan_begin, scan_next,
    IdentityStep, ScanStep,
};

fn run_identity(mem: &HashMap<u64, u64>, ttbr0: u64, tcr: u32, start: u64, end: u64) -> bool {
    let mut step = identity_check_begin(ttbr0, tcr, start, end);
    loop {
        match step {
            IdentityStep::Done { maps } => return maps,
            IdentityStep::Read { address, cursor } => {
                step = identity_check_next(cursor, *mem.get(&address).unwrap_or(&0));
            }
        }
    }
}

fn run_scan(mem: &HashMap<u64, u64>, ttbr0: u64, three_level: bool) -> Option<(u64, u64)> {
    let mut step = scan_begin(ttbr0, three_level);
    loop {
        match step {
            ScanStep::Done { found } => return found,
            ScanStep::Read { address, cursor } => {
                step = scan_next(cursor, *mem.get(&address).unwrap_or(&0));
            }
        }
    }
}

const TCR_39: u32 = 25;

#[test]
fn identity_check_of_a_live_context() {
    let l1 = 0x1000u64;
    let l2 = 0x2000u64;
    let l3 = 0x3000u64;
    let mut mem = HashMap::new();
    // 0x9000_0000 lies in gigabyte 2.
    mem.insert(l1 + 8 * 2, l2 | 3);
    // Block 0x9000_0000 is a 2 MiB identity block.
    mem.insert(l2 + 8 * 0x80, 0x9000_0000 | 1);
    // Block 0x9020_0000 goes through a page table; its first page maps itself.
    mem.insert(l2 + 8 * 0x81, l3 | 3);
    mem.insert(l3, 0x9020_0000 | 3);
    // The ASID in TTBR0[63:48] is ignored.
    let ttbr0 = l1 | (5u64 << 48);
    assert!(run_identity(&mem, ttbr0, TCR_39, 0x9000_0000, 0x9020_1000));
    assert!(run_identity(&mem, ttbr0, TCR_39, 0x9010_0000, 0x9020_0000));
    assert!(run_identity(&mem, ttbr0, TCR_39, 0x9000_0000, 0x9040_0000));
    assert!(!run_identity(&mem, ttbr0, TCR_39, 0x9000_0000, 0x9040_1000));
    // A 1 GiB identity block covers everything in it.
    mem.insert(l1 + 8 * 3, 0xc000_0000 | 1);
    assert!(run_identity(&mem, ttbr0, TCR_39, 0xc000_0000, 0xe000_0000));
    // Unfamiliar formats are refused.
    assert!(!run_identity(&mem, ttbr0, TCR_39 | (1 << 14), 0x9000_0000, 0x9020_0000));
    assert!(!run_identity(&mem, ttbr0, 16, 0x9000_0000, 0x9020_0000));
    assert!(!run_identity(&mem, 0, TCR_39, 0x9000_0000, 0x9020_0000));
    assert!(!run_identity(&mem, ttbr0, TCR_39, 0x9020_0000, 0x9000_0000));
}

#[test]
fn scan_finds_the_first_mapped_page() {
    let mut mem = HashMap::new();
    assert_eq!(run_scan(&mem, 0x1000, false), None);
    // A 32-bit context: the root is the level-2 table.
    mem.insert(0x1000 + 8 * 5, 0x4000 | 3);
    mem.insert(0x4000 + 8 * 7, 0x8880_0000 | 1);
    assert_eq!(run_scan(&mem, 0x1000, false), Some(((5 << 21) | (7 << 12), 0x8880_0000)));
    // An earlier 2 MiB block wins.
    mem.insert(0x1000 + 8 * 2, 0xa000_0000 | 1);
    assert_eq!(run_scan(&mem, 0x1000, false), Some((2 << 21, 0xa000_0000)));
    // A three-level context descends from level 1.
    let mut mem = HashMap::new();
    mem.insert(0x1000 + 8 * 1, 0x6000 | 3);
    mem.insert(0x6000 + 8 * 3, 0xb000_0000 | 1);
    assert_eq!(run_scan(&mem, 0x1000, true), Some(((1 << 30) | (3 << 21), 0xb000_0000)));
}

#[test]
fn adoption_prefers_the_event_ring_page() {
    assert_eq!(adoption(0x9000_1000, Some(0x8000_1000), Some((0x1000, 0x2000))), Some((0x9000_1000, 0x8000_1000)));
    assert_eq!(adoption(0x9000_1000, Some(0), Some((0x1000, 0x2000))), Some((0x1000, 0x2000)));
    assert_eq!(adoption(0x9000_1000, None, None), None);
    assert_eq!(adoption(0x9000_1000, None, Some((0x1010, 0x2000))), None);
    assert_eq!(adoption(0x9000_1000, None, Some((0x1000, 0))), None);
    assert!(context_geometry(ID0, ID1).is_some());
    assert!(context_geometry(ID0, 0x1008_0000).is_none());
}
