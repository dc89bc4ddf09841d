//! Apps-SMMU decisions for the DWC3 stream: the stage-1 page-table walk,
//! stream-match discovery, the bypass claim, DMA-page adoption, the
//! identity table and fault servicing.
//!
//! Page-table walks read memory the caller owns; they are expressed as a
//! step machine: each step either names the next descriptor address to read
//! or gives the walk's result.

use vstd::prelude::*;

verus! {

/// Output-address bits of a descriptor.
pub const DESC_ADDRESS_MASK: u64 = 0x000f_ffff_ffff_f000;

/// Where a walk stands: the level of the descriptor it reads next.
#[derive(Clone, Copy, PartialEq, Eq, Debug)]
pub enum WalkLevel {
    L1,
    L2,
    L3,
}

/// An unfinished walk.
#[derive(Clone, Copy, PartialEq, Eq, Debug)]
pub struct WalkState {
    pub level: WalkLevel,
    pub iova: u64,
}

/// The next step of a walk.
#[derive(Clone, Copy, PartialEq, Eq, Debug)]
pub enum WalkStep {
    /// Read the 64-bit descriptor at `address` and continue from `state`.
    Read { address: u64, state: WalkState },
    /// The walk is over: the output address, or `None` when unmapped.
    Done { output: Option<u64> },
}

/// Table index of `iova` at a level (9 bits each, 4 KiB granule).
pub open spec fn l1_index(iova: u64) -> u64 {
    (iova >> 30u64) & 0x1ff
}

pub open spec fn l2_index(iova: u64) -> u64 {
    (iova >> 21u64) & 0x1ff
}

pub open spec fn l3_index(iova: u64) -> u64 {
    (iova >> 12u64) & 0x1ff
}

/// The table a descriptor (or TTBR) points at.
pub open spec fn table_base(descriptor: u64) -> u64 {
    descriptor & !0xfffu64
}

/// Address of entry `index` of the table at `base`.
pub open spec fn entry_address(base: u64, index: u64) -> u64 {
    (base + index * 8) as u64
}

/// The result of a 2 MiB block for `iova`: its output address when the
/// whole 4 KiB window of `iova` fits in the block.
pub open spec fn block_output(descriptor: u64, iova: u64) -> Option<u64> {
    let offset = iova & 0x1f_ffff;
    if offset + 0x1000 > 0x20_0000 {
        None
    } else {
        Some((descriptor & DESC_ADDRESS_MASK) | offset)
    }
}

/// The first step of a walk: the L1 entry for a three-level (39-bit)
/// context, otherwise the L2 entry of the root table (32-bit context).
pub open spec fn spec_walk_begin(ttbr0: u64, three_level: bool, iova: u64) -> WalkStep {
    let root = table_base(ttbr0);
    if three_level {
        WalkStep::Read {
            address: entry_address(root, l1_index(iova)),
            state: WalkState { level: WalkLevel::L1, iova },
        }
    } else {
        WalkStep::Read {
            address: entry_address(root, l2_index(iova)),
            state: WalkState { level: WalkLevel::L2, iova },
        }
    }
}

/// The step after reading `descriptor`. An L1 entry must be a valid table;
/// an L2 entry is a 2 MiB block or a table; an L3 entry must be valid with
/// bit 1 clear.
pub open spec fn spec_walk_next(state: WalkState, descriptor: u64) -> WalkStep {
    let iova = state.iova;
    match state.level {
        WalkLevel::L1 => if descriptor & 1 == 0 || descriptor & 2 == 0 {
            WalkStep::Done { output: None }
        } else {
            WalkStep::Read {
                address: entry_address(table_base(descriptor), l2_index(iova)),
                state: WalkState { level: WalkLevel::L2, iova },
            }
        },
        WalkLevel::L2 => if descriptor & 1 == 0 {
            WalkStep::Done { output: None }
        } else if descriptor & 2 == 0 {
            WalkStep::Done { output: block_output(descriptor, iova) }
        } else {
            WalkStep::Read {
                address: entry_address(table_base(descriptor), l3_index(iova)),
                state: WalkState { level: WalkLevel::L3, iova },
            }
        },
        WalkLevel::L3 => if descriptor & 1 == 0 || descriptor & 2 != 0 {
            WalkStep::Done { output: None }
        } else {
            WalkStep::Done { output: Some(descriptor & DESC_ADDRESS_MASK) }
        },
    }
}

proof fn lemma_entry_address_fits(descriptor: u64, index: u64)
    requires
        index <= 0x1ff,
    ensures
        table_base(descriptor) + index * 8 <= u64::MAX,
{
    assert(descriptor & !0xfffu64 <= 0xffff_ffff_ffff_f000u64) by (bit_vector);
}

proof fn lemma_indices_bounded(iova: u64)
    ensures
        l1_index(iova) <= 0x1ff,
        l2_index(iova) <= 0x1ff,
        l3_index(iova) <= 0x1ff,
{
    assert((iova >> 30u64) & 0x1ff <= 0x1ff && (iova >> 21u64) & 0x1ff <= 0x1ff && (iova
        >> 12u64) & 0x1ff <= 0x1ff) by (bit_vector);
}

/// Start a stage-1 walk of `iova`.
pub fn smmu_walk_begin(ttbr0: u64, three_level: bool, iova: u64) -> (step: WalkStep)
    ensures
        step == spec_walk_begin(ttbr0, three_level, iova),
{
    proof {
        lemma_indices_bounded(iova);
        lemma_entry_address_fits(ttbr0, l1_index(iova));
        lemma_entry_address_fits(ttbr0, l2_index(iova));
    }
    let root = ttbr0 & !0xfffu64;
    if three_level {
        WalkStep::Read {
            address: root + ((iova >> 30) & 0x1ff) * 8,
            state: WalkState { level: WalkLevel::L1, iova },
        }
    } else {
        WalkStep::Read {
            address: root + ((iova >> 21) & 0x1ff) * 8,
            state: WalkState { level: WalkLevel::L2, iova },
        }
    }
}

/// Continue a walk with the descriptor just read.
pub fn smmu_walk_next(state: WalkState, descriptor: u64) -> (step: WalkStep)
    ensures
        step == spec_walk_next(state, descriptor),
{
    let iova = state.iova;
    proof {
        lemma_indices_bounded(iova);
        lemma_entry_address_fits(descriptor, l2_index(iova));
        lemma_entry_address_fits(descriptor, l3_index(iova));
    }
    match state.level {
        WalkLevel::L1 => {
            if descriptor & 1 == 0 || descriptor & 2 == 0 {
                WalkStep::Done { output: None }
            } else {
                WalkStep::Read {
                    address: (descriptor & !0xfffu64) + ((iova >> 21) & 0x1ff) * 8,
                    state: WalkState { level: WalkLevel::L2, iova },
                }
            }
        },
        WalkLevel::L2 => {
            if descriptor & 1 == 0 {
                WalkStep::Done { output: None }
            } else if descriptor & 2 == 0 {
                let offset = iova & 0x1f_ffff;
                assert(offset <= 0x1f_ffff) by (bit_vector)
                    requires
                        offset == iova & 0x1f_ffff,
                ;
                if offset + 0x1000 > 0x20_0000 {
                    WalkStep::Done { output: None }
                } else {
                    WalkStep::Done { output: Some((descriptor & DESC_ADDRESS_MASK) | offset) }
                }
            } else {
                WalkStep::Read {
                    address: (descriptor & !0xfffu64) + ((iova >> 12) & 0x1ff) * 8,
                    state: WalkState { level: WalkLevel::L3, iova },
                }
            }
        },
        WalkLevel::L3 => {
            if descriptor & 1 == 0 || descriptor & 2 != 0 {
                WalkStep::Done { output: None }
            } else {
                WalkStep::Done { output: Some(descriptor & DESC_ADDRESS_MASK) }
            }
        },
    }
}

/// The stage-1 walk of `iova` over page-table memory `mem`, stated directly:
/// the output address, or `None` when unmapped.
pub open spec fn walk(mem: spec_fn(u64) -> u64, ttbr0: u64, three_level: bool, iova: u64) -> Option<
    u64,
> {
    let l2_table = if three_level {
        let l1 = mem(entry_address(table_base(ttbr0), l1_index(iova)));
        if l1 & 1 == 0 || l1 & 2 == 0 {
            None
        } else {
            Some(table_base(l1))
        }
    } else {
        Some(table_base(ttbr0))
    };
    match l2_table {
        None => None,
        Some(t2) => {
            let l2 = mem(entry_address(t2, l2_index(iova)));
            if l2 & 1 == 0 {
                None
            } else if l2 & 2 == 0 {
                block_output(l2, iova)
            } else {
                let l3 = mem(entry_address(table_base(l2), l3_index(iova)));
                if l3 & 1 == 0 || l3 & 2 != 0 {
                    None
                } else {
                    Some(l3 & DESC_ADDRESS_MASK)
                }
            }
        },
    }
}

/// Drive a walk against memory `mem` for at most `fuel` reads.
pub open spec fn run_walk(mem: spec_fn(u64) -> u64, step: WalkStep, fuel: nat) -> Option<u64>
    decreases fuel,
{
    match step {
        WalkStep::Done { output } => output,
        WalkStep::Read { address, state } => if fuel == 0 {
            None
        } else {
            run_walk(mem, spec_walk_next(state, mem(address)), (fuel - 1) as nat)
        },
    }
}

/// Driving the step machine with the descriptors a memory holds, starting
/// from `smmu_walk_begin`, gives exactly the walk of that memory, within
/// three reads.
pub proof fn lemma_step_machine_is_walk(
    mem: spec_fn(u64) -> u64,
    ttbr0: u64,
    three_level: bool,
    iova: u64,
)
    ensures
        run_walk(mem, spec_walk_begin(ttbr0, three_level, iova), 3) == walk(
            mem,
            ttbr0,
            three_level,
            iova,
        ),
{
    reveal_with_fuel(run_walk, 4);
}

} // verus!

verus! {

use crate::mmio::{
    SMMU_CBAR_IRPTNDX_MASK, SMMU_CBAR_S1_BPSHCFG_NSH, SMMU_CBAR_S1_MEMATTR_WB,
    SMMU_CBAR_S1_TRANS_S2_BYPASS, SMMU_CBA2R_VA64, SMMU_FSR_FAULT, SMMU_FSR_SS,
    SMMU_GLOBAL_FSR_FAULT, SMMU_S2CR_CBNDX_MASK, SMMU_S2CR_TYPE_BYPASS, SMMU_S2CR_TYPE_MASK,
    SMMU_S2CR_TYPE_TRANS, SMMU_SCTLR_M, SMMU_SMR_VALID, SMMU_TCR2_AS, SMMU_TCR2_PASIZE_40BIT,
    SMMU_TCR2_SEP_UPSTREAM, SMMU_TCR_EPD1, SMMU_TCR_IRGN0_WBWA, SMMU_TCR_ORGN0_WBWA,
    SMMU_TCR_SH0_INNER, SMMU_TCR_T0SZ_32BIT, SMMU_TCR_T0SZ_39BIT, SMMU_SCTLR_S1_ASIDPNE,
    SMMU_SCTLR_CFIE, SMMU_SCTLR_CFRE, SMMU_SCTLR_AFE, SMMU_SCTLR_TRE,
};

/// Whether the SMMU identification registers read as implemented (neither
/// all zeros nor all ones).
pub open spec fn ids_readable(id0: u32, id1: u32) -> bool {
    id0 != 0 && id0 != 0xffff_ffffu32 && id1 != 0 && id1 != 0xffff_ffffu32
}

/// The number of stream-match registers to examine (at most 128).
pub open spec fn spec_smr_count(id0: u32) -> usize {
    if (id0 & 0xff) < 128 {
        (id0 & 0xff) as usize
    } else {
        128
    }
}

/// Number of stream-match registers to examine.
pub fn smr_count(id0: u32) -> (n: usize)
    ensures
        n == spec_smr_count(id0),
        n <= 128,
{
    let n = (id0 & 0xff) as usize;
    if n < 128 {
        n
    } else {
        128
    }
}

/// Whether a stream-match register is valid and matches `stream_id` under
/// its mask.
pub open spec fn smr_matches(smr: u32, stream_id: u32) -> bool {
    smr & SMMU_SMR_VALID != 0 && (stream_id ^ (smr & 0xffff)) & !((smr >> 16u32) & 0x7fff) == 0
}

/// Whether a stream-match register matches `stream_id`.
pub fn smr_matches_stream(smr: u32, stream_id: u32) -> (m: bool)
    ensures
        m == smr_matches(smr, stream_id),
{
    smr & SMMU_SMR_VALID != 0 && (stream_id ^ (smr & 0xffff)) & !((smr >> 16) & 0x7fff) == 0
}

/// The first stream-match register that matches `stream_id`.
pub fn first_matching_smr(smrs: &[u32], stream_id: u32) -> (r: Option<usize>)
    ensures
        match r {
            Some(i) => i < smrs@.len() && smr_matches(smrs@[i as int], stream_id) && forall|j: int|
                0 <= j < i ==> !smr_matches(#[trigger] smrs@[j], stream_id),
            None => forall|j: int| 0 <= j < smrs@.len() ==> !smr_matches(#[trigger] smrs@[j], stream_id),
        },
{
    let mut i: usize = 0;
    while i < smrs.len()
        invariant
            i <= smrs@.len(),
            forall|j: int| 0 <= j < i ==> !smr_matches(#[trigger] smrs@[j], stream_id),
        decreases smrs.len() - i,
    {
        if smr_matches_stream(smrs[i], stream_id) {
            return Some(i);
        }
        i += 1;
    }
    None
}

/// The first stream-match register that is not valid (free to claim).
pub fn first_free_smr(smrs: &[u32]) -> (r: Option<usize>)
    ensures
        match r {
            Some(i) => i < smrs@.len() && smrs@[i as int] & SMMU_SMR_VALID == 0 && forall|j: int|
                0 <= j < i ==> #[trigger] smrs@[j] & SMMU_SMR_VALID != 0,
            None => forall|j: int| 0 <= j < smrs@.len() ==> #[trigger] smrs@[j] & SMMU_SMR_VALID != 0,
        },
{
    let mut i: usize = 0;
    while i < smrs.len()
        invariant
            i <= smrs@.len(),
            forall|j: int| 0 <= j < i ==> #[trigger] smrs@[j] & SMMU_SMR_VALID != 0,
        decreases smrs.len() - i,
    {
        if smrs[i] & SMMU_SMR_VALID == 0 {
            return Some(i);
        }
        i += 1;
    }
    None
}

/// Whether any stream-match register is valid.
pub fn any_valid_smr(smrs: &[u32]) -> (r: bool)
    ensures
        r == exists|j: int| 0 <= j < smrs@.len() && #[trigger] smrs@[j] & SMMU_SMR_VALID != 0,
{
    match first_valid_smr(smrs) {
        Some(_) => true,
        None => false,
    }
}

/// The first valid stream-match register, if any.
fn first_valid_smr(smrs: &[u32]) -> (r: Option<usize>)
    ensures
        match r {
            Some(i) => i < smrs@.len() && smrs@[i as int] & SMMU_SMR_VALID != 0,
            None => forall|j: int| 0 <= j < smrs@.len() ==> #[trigger] smrs@[j] & SMMU_SMR_VALID == 0,
        },
{
    let mut i: usize = 0;
    while i < smrs.len()
        invariant
            i <= smrs@.len(),
            forall|j: int| 0 <= j < i ==> #[trigger] smrs@[j] & SMMU_SMR_VALID == 0,
        decreases smrs.len() - i,
    {
        if smrs[i] & SMMU_SMR_VALID != 0 {
            return Some(i);
        }
        i += 1;
    }
    None
}

/// The SMMU geometry the decisions need.
#[derive(Clone, Copy, PartialEq, Eq, Debug)]
pub struct SmmuGeometry {
    pub num_smrs: usize,
    /// Global register pages; context banks start at this page.
    pub num_pages: usize,
    pub num_s2_context_banks: usize,
    pub num_context_banks: usize,
    /// Register page size (64 KiB when ID1.PAGESIZE is set).
    pub page_size: usize,
}

/// The geometry the identification registers describe.
pub open spec fn spec_geometry(id0: u32, id1: u32) -> SmmuGeometry {
    SmmuGeometry {
        num_smrs: spec_smr_count(id0),
        num_pages: (1u64 << ((((id1 >> 28u32) & 7) + 1) as u64)) as usize,
        num_s2_context_banks: ((id1 >> 16u32) & 0xff) as usize,
        num_context_banks: (id1 & 0xff) as usize,
        page_size: if id1 & 0x8000_0000 != 0 {
            0x10000usize
        } else {
            0x1000usize
        },
    }
}

/// Decode the SMMU geometry, if the identification registers are readable.
pub fn smmu_geometry(id0: u32, id1: u32) -> (g: Option<SmmuGeometry>)
    ensures
        match g {
            Some(g) => ids_readable(id0, id1) && g == spec_geometry(id0, id1) && 2 <= g.num_pages
                <= 256,
            None => !ids_readable(id0, id1),
        },
{
    if id0 == 0 || id0 == u32::MAX || id1 == 0 || id1 == u32::MAX {
        return None;
    }
    let top = (id1 >> 28) & 7;
    assert(top <= 7) by (bit_vector)
        requires
            top == (id1 >> 28u32) & 7,
    ;
    let shift = top + 1;
    assert(1 <= shift <= 8) by (bit_vector)
        requires
            shift == ((id1 >> 28u32) & 7) + 1,
    ;
    let pages: u64 = 1u64 << (shift as u64);
    assert(2 <= pages <= 256) by (bit_vector)
        requires
            pages == 1u64 << (shift as u64),
            1 <= shift <= 8,
    ;
    Some(
        SmmuGeometry {
            num_smrs: smr_count(id0),
            num_pages: pages as usize,
            num_s2_context_banks: ((id1 >> 16) & 0xff) as usize,
            num_context_banks: (id1 & 0xff) as usize,
            page_size: if id1 & 0x8000_0000 != 0 {
                0x10000
            } else {
                0x1000
            },
        },
    )
}

/// The context bank a matched stream translates through, when its S2CR is a
/// TRANSLATE entry naming an existing bank.
pub fn translate_context_bank(s2cr: u32, num_context_banks: usize) -> (r: Option<usize>)
    ensures
        r == if s2cr & SMMU_S2CR_TYPE_MASK == SMMU_S2CR_TYPE_TRANS && ((s2cr
            & SMMU_S2CR_CBNDX_MASK) as usize) < num_context_banks {
            Some((s2cr & SMMU_S2CR_CBNDX_MASK) as usize)
        } else {
            None::<usize>
        },
{
    if s2cr & SMMU_S2CR_TYPE_MASK != SMMU_S2CR_TYPE_TRANS {
        return None;
    }
    let cbndx = (s2cr & SMMU_S2CR_CBNDX_MASK) as usize;
    if cbndx >= num_context_banks {
        return None;
    }
    Some(cbndx)
}

/// Where the stream-state ladder stands after the stream-match scan.
#[derive(Clone, Copy, PartialEq, Eq, Debug)]
pub enum StreamLadder {
    /// The final code.
    Code { code: u32 },
    /// A register matched: the code is the type of the S2CR at `index`.
    ReadS2cr { index: usize },
}

/// The stream-state ladder: 254 unreadable identification, 253 no
/// stream-match registers, the S2CR type (0..=3) of the first matching
/// register, 252 valid registers of which none matches the stream, 251 no
/// valid register at all.
pub fn stream_ladder(id0: u32, id1: u32, stream_id: u32, smrs: &[u32]) -> (r: StreamLadder)
    requires
        ids_readable(id0, id1) ==> smrs@.len() == spec_smr_count(id0),
    ensures
        r == if !ids_readable(id0, id1) {
            StreamLadder::Code { code: 254 }
        } else if spec_smr_count(id0) == 0 {
            StreamLadder::Code { code: 253 }
        } else if exists|j: int| 0 <= j < smrs@.len() && smr_matches(#[trigger] smrs@[j], stream_id) {
            StreamLadder::ReadS2cr {
                index: choose|i: usize|
                    i < smrs@.len() && smr_matches(smrs@[i as int], stream_id) && forall|j: int|
                        0 <= j < i ==> !smr_matches(#[trigger] smrs@[j], stream_id),
            }
        } else if exists|j: int| 0 <= j < smrs@.len() && #[trigger] smrs@[j] & SMMU_SMR_VALID != 0 {
            StreamLadder::Code { code: 252 }
        } else {
            StreamLadder::Code { code: 251 }
        },
{
    if id0 == 0 || id0 == u32::MAX || id1 == 0 || id1 == u32::MAX {
        return StreamLadder::Code { code: 254 };
    }
    if smr_count(id0) == 0 {
        return StreamLadder::Code { code: 253 };
    }
    match first_matching_smr(smrs, stream_id) {
        Some(i) => {
            proof {
                let c = choose|k: usize|
                    k < smrs@.len() && smr_matches(smrs@[k as int], stream_id) && forall|j: int|
                        0 <= j < k ==> !smr_matches(#[trigger] smrs@[j], stream_id);
                if c < i {
                    assert(!smr_matches(smrs@[c as int], stream_id));
                } else if c > i {
                    assert(!smr_matches(smrs@[i as int], stream_id));
                }
            }
            StreamLadder::ReadS2cr { index: i }
        },
        None => {
            if any_valid_smr(smrs) {
                StreamLadder::Code { code: 252 }
            } else {
                StreamLadder::Code { code: 251 }
            }
        },
    }
}

/// The ladder code of a matched S2CR: its type field.
pub fn s2cr_type_code(s2cr: u32) -> (code: u32)
    ensures
        code == (s2cr & SMMU_S2CR_TYPE_MASK) >> 16u32,
        code <= 3,
{
    let code = (s2cr & SMMU_S2CR_TYPE_MASK) >> 16;
    assert(code <= 3) by (bit_vector)
        requires
            code == (s2cr & 0x3_0000u32) >> 16u32,
    ;
    code
}

/// The translation type a matched S2CR selects.
#[derive(Clone, Copy, PartialEq, Eq, Debug)]
pub enum S2crKind {
    Translate,
    Bypass,
    Fault,
    /// The reserved type encoding.
    Reserved,
}

/// The type an S2CR selects (its type field, bits 17:16).
pub open spec fn spec_s2cr_kind(s2cr: u32) -> S2crKind {
    let t = s2cr & SMMU_S2CR_TYPE_MASK;
    if t == SMMU_S2CR_TYPE_TRANS {
        S2crKind::Translate
    } else if t == SMMU_S2CR_TYPE_BYPASS {
        S2crKind::Bypass
    } else if t == 0x2_0000 {
        S2crKind::Fault
    } else {
        S2crKind::Reserved
    }
}

/// The type an S2CR selects.
pub fn s2cr_kind(s2cr: u32) -> (k: S2crKind)
    ensures
        k == spec_s2cr_kind(s2cr),
{
    let t = s2cr & SMMU_S2CR_TYPE_MASK;
    if t == SMMU_S2CR_TYPE_TRANS {
        S2crKind::Translate
    } else if t == SMMU_S2CR_TYPE_BYPASS {
        S2crKind::Bypass
    } else if t == 0x2_0000 {
        S2crKind::Fault
    } else {
        S2crKind::Reserved
    }
}

/// The coarse stream probe code of a matched S2CR: 6 when it selects
/// translation, 7 when it selects bypass; the probe's codes name no fault or
/// reserved type, so those have no code.
pub fn probe_code_for_s2cr(s2cr: u32) -> (code: Option<u32>)
    ensures
        code == match spec_s2cr_kind(s2cr) {
            S2crKind::Translate => Some(6u32),
            S2crKind::Bypass => Some(7u32),
            S2crKind::Fault | S2crKind::Reserved => None::<u32>,
        },
{
    match s2cr_kind(s2cr) {
        S2crKind::Translate => Some(6),
        S2crKind::Bypass => Some(7),
        S2crKind::Fault | S2crKind::Reserved => None,
    }
}

/// The read-only stream probe's code from the stream ladder and, when a
/// register matched, that register's S2CR: 9 unreadable identification, 8
/// no matching register, else the S2CR's probe code.
pub fn stream_probe_code(ladder: StreamLadder, matched_s2cr: u32) -> (code: Option<u32>)
    ensures
        code == match ladder {
            StreamLadder::Code { code } => if code == 254 {
                Some(9u32)
            } else {
                Some(8u32)
            },
            StreamLadder::ReadS2cr { .. } => match spec_s2cr_kind(matched_s2cr) {
                S2crKind::Translate => Some(6u32),
                S2crKind::Bypass => Some(7u32),
                S2crKind::Fault | S2crKind::Reserved => None::<u32>,
            },
        },
{
    match ladder {
        StreamLadder::Code { code } => if code == 254 {
            Some(9)
        } else {
            Some(8)
        },
        StreamLadder::ReadS2cr { .. } => probe_code_for_s2cr(matched_s2cr),
    }
}

/// What claiming a bypass for the stream should do.
#[derive(Clone, Copy, PartialEq, Eq, Debug)]
pub enum BypassPlan {
    /// The stream already has an owner; nothing to install.
    AlreadyOwned { index: usize },
    /// Claim the free register `index`: write the bypass S2CR, then this SMR.
    Claim { index: usize, smr_value: u32 },
    /// No free register; or the SMMU is unreadable or has no registers.
    Fail,
}

/// Plan the bypass claim for the (16-bit) stream id: an existing match is
/// left alone; otherwise the first free register is claimed with an SMR that
/// matches the stream (or, in the catch-all build, every stream).
pub fn bypass_plan(id0: u32, id1: u32, stream_id: u32, smrs: &[u32], catch_all: bool) -> (p:
    BypassPlan)
    requires
        ids_readable(id0, id1) ==> smrs@.len() == spec_smr_count(id0),
    ensures
        !ids_readable(id0, id1) || spec_smr_count(id0) == 0 ==> p == BypassPlan::Fail,
        match p {
            BypassPlan::AlreadyOwned { index } => index < smrs@.len() && smr_matches(
                smrs@[index as int],
                stream_id & 0xffff,
            ),
            BypassPlan::Claim { index, smr_value } => {
                &&& ids_readable(id0, id1)
                &&& forall|j: int| 0 <= j < smrs@.len() ==> !smr_matches(#[trigger] smrs@[j], stream_id & 0xffff)
                &&& index < smrs@.len()
                &&& smrs@[index as int] & SMMU_SMR_VALID == 0
                &&& forall|j: int| 0 <= j < index ==> #[trigger] smrs@[j] & SMMU_SMR_VALID != 0
                &&& smr_value == if catch_all {
                    SMMU_SMR_VALID | (0x7fffu32 << 16u32)
                } else {
                    SMMU_SMR_VALID | (stream_id & 0xffff)
                }
            },
            BypassPlan::Fail => !ids_readable(id0, id1) || spec_smr_count(id0) == 0 || (
            (forall|j: int| 0 <= j < smrs@.len() ==> !smr_matches(#[trigger] smrs@[j], stream_id & 0xffff))
                && forall|j: int| 0 <= j < smrs@.len() ==> #[trigger] smrs@[j] & SMMU_SMR_VALID != 0),
        },
{
    if id0 == 0 || id0 == u32::MAX || id1 == 0 || id1 == u32::MAX {
        return BypassPlan::Fail;
    }
    if smr_count(id0) == 0 {
        return BypassPlan::Fail;
    }
    let stream = stream_id & 0xffff;
    if let Some(index) = first_matching_smr(smrs, stream) {
        return BypassPlan::AlreadyOwned { index };
    }
    match first_free_smr(smrs) {
        Some(index) => {
            let smr_value = if catch_all {
                SMMU_SMR_VALID | (0x7fffu32 << 16)
            } else {
                SMMU_SMR_VALID | stream
            };
            BypassPlan::Claim { index, smr_value }
        },
        None => BypassPlan::Fail,
    }
}

/// The S2CR written by a bypass claim: type BYPASS, every other field kept.
pub fn bypass_s2cr_value(old: u32) -> (value: u32)
    ensures
        value == (old & !SMMU_S2CR_TYPE_MASK) | SMMU_S2CR_TYPE_BYPASS,
{
    (old & !SMMU_S2CR_TYPE_MASK) | SMMU_S2CR_TYPE_BYPASS
}

/// Whether the claim took effect: the SMR reads back valid and exactly as
/// written, and the S2CR reads back as BYPASS.
pub fn bypass_claim_verified(smr_readback: u32, smr_value: u32, s2cr_readback: u32) -> (ok: bool)
    ensures
        ok == (smr_readback & SMMU_SMR_VALID != 0 && smr_readback == smr_value && s2cr_readback
            & SMMU_S2CR_TYPE_MASK == SMMU_S2CR_TYPE_BYPASS),
{
    smr_readback & SMMU_SMR_VALID != 0 && smr_readback == smr_value && s2cr_readback
        & SMMU_S2CR_TYPE_MASK == SMMU_S2CR_TYPE_BYPASS
}

/// The event-ring address the bootloader left in GEVNTADR.
pub fn event_ring_iova(hi: u32, lo: u32) -> (iova: u64)
    ensures
        iova == ((hi as u64) << 32u64) | (lo as u64),
{
    ((hi as u64) << 32) | (lo as u64)
}

/// Whether a captured event-ring address can seed the DMA-page adoption:
/// set, page aligned, CPU addressable, and inside the context's aperture.
pub fn adoptable_event_iova(iova: u64, three_level: bool) -> (ok: bool)
    ensures
        ok == (iova != 0 && iova != u64::MAX && iova % 0x1000 == 0 && iova <= usize::MAX && iova
            < if three_level {
            0x80_0000_0000u64
        } else {
            0x1_0000_0000u64
        }),
{
    let aligned = iova & 0xfff == 0;
    assert(aligned == (iova % 0x1000 == 0)) by (bit_vector)
        requires
            aligned == (iova & 0xfff == 0),
    ;
    let limit: u64 = if three_level {
        0x80_0000_0000
    } else {
        0x1_0000_0000
    };
    iova != 0 && iova != u64::MAX && aligned && iova <= usize::MAX as u64 && iova < limit
}

/// Whether a context bank has translation enabled.
pub fn context_translates(sctlr: u32) -> (on: bool)
    ensures
        on == (sctlr & SMMU_SCTLR_M != 0),
{
    sctlr & SMMU_SCTLR_M != 0
}

/// What servicing a context-bank fault writes: the fault status back (to
/// clear it), and whether a stalled transaction must be terminated.
#[derive(Clone, Copy, PartialEq, Eq, Debug)]
pub struct FaultAction {
    pub clear: u32,
    pub terminate: bool,
}

/// Whether a global fault is latched; its status is written back to clear it.
pub fn global_fault_pending(gfsr: u32) -> (pending: bool)
    ensures
        pending == (gfsr != 0 && gfsr != 0xffff_ffffu32 && gfsr & SMMU_GLOBAL_FSR_FAULT != 0),
{
    gfsr != 0 && gfsr != u32::MAX && gfsr & SMMU_GLOBAL_FSR_FAULT != 0
}

/// The servicing of a context-bank fault status, if any fault is latched.
pub fn context_fault_action(fsr: u32) -> (a: Option<FaultAction>)
    ensures
        a == if fsr != 0 && fsr != 0xffff_ffffu32 && fsr & SMMU_FSR_FAULT != 0 {
            Some(FaultAction { clear: fsr, terminate: fsr & SMMU_FSR_SS != 0 })
        } else {
            None::<FaultAction>
        },
{
    if fsr == 0 || fsr == u32::MAX || fsr & SMMU_FSR_FAULT == 0 {
        return None;
    }
    Some(FaultAction { clear: fsr, terminate: fsr & SMMU_FSR_SS != 0 })
}

} // verus!

verus! {

use crate::mmio::{SMMU_ID1_PAGESIZE};

/// Why configuring the DWC3 stream's SMMU context failed.
#[derive(Clone, Copy, PartialEq, Eq, Debug)]
pub enum SmmuConfigureError {
    /// The declared DMA pool wraps the address space.
    InvalidPool,
    /// The linker DMA section is not inside the declared pool.
    SectionOutsidePool,
    /// The identification registers are unreadable.
    IdsUnavailable,
    /// Only 64 KiB register pages, which the 4 KiB tables cannot serve.
    Unsupported64K,
    /// No context banks are implemented.
    NoContextBanks,
    /// No stream-match register matches the DWC3 stream.
    NoStreamMatch,
    /// The stream translates through a bank outside the stage-1 range.
    ContextBankOutOfRange,
    /// The pool is not 2 MiB aligned or not 32-bit addressable.
    PoolNotMappable,
    /// The S2CR did not read back as the requested translation.
    TranslationRejected,
}

/// The page the context-fault poller reads, and its register page size;
/// page `usize::MAX` with size 0 when no bank is being configured.
#[derive(Clone, Copy, PartialEq, Eq, Debug)]
pub struct FaultContext {
    pub page: usize,
    pub page_size: usize,
}

/// The fault poller's context when a configuration begins: none, so a failed
/// configuration never leaves it pointing at a bank from an earlier one.
pub open spec fn spec_no_fault_context() -> FaultContext {
    FaultContext { page: usize::MAX, page_size: 0 }
}

/// The fault poller's context when a configuration begins.
pub fn no_fault_context() -> (f: FaultContext)
    ensures
        f == spec_no_fault_context(),
{
    FaultContext { page: usize::MAX, page_size: 0 }
}

/// The first check of a configuration, made before any SMMU register is
/// read: the declared pool must not wrap the address space and must hold the
/// linker DMA section, which must not be empty.
pub open spec fn spec_pool_precheck(pool_base: usize, pool_size: usize, dma_start: usize, dma_end: usize) -> Result<(), SmmuConfigureError> {
    if pool_base + pool_size > usize::MAX {
        Err(SmmuConfigureError::InvalidPool)
    } else if dma_start < pool_base || dma_end > pool_base + pool_size || dma_start >= dma_end {
        Err(SmmuConfigureError::SectionOutsidePool)
    } else {
        Ok(())
    }
}

/// Check the pool against the DMA section.
pub fn pool_precheck(pool_base: usize, pool_size: usize, dma_start: usize, dma_end: usize) -> (r: Result<(), SmmuConfigureError>)
    ensures
        r == spec_pool_precheck(pool_base, pool_size, dma_start, dma_end),
{
    let pool_end = match pool_base.checked_add(pool_size) {
        Some(end) => end,
        None => return Err(SmmuConfigureError::InvalidPool),
    };
    if dma_start < pool_base || dma_end > pool_end || dma_start >= dma_end {
        return Err(SmmuConfigureError::SectionOutsidePool);
    }
    Ok(())
}

/// The checks of the identification registers, in order: readable, 4 KiB
/// register pages, at least one context bank.
pub open spec fn spec_geometry_precheck(id0: u32, id1: u32) -> Result<SmmuGeometry, SmmuConfigureError> {
    if !ids_readable(id0, id1) {
        Err(SmmuConfigureError::IdsUnavailable)
    } else if id1 & SMMU_ID1_PAGESIZE != 0 {
        Err(SmmuConfigureError::Unsupported64K)
    } else if spec_geometry(id0, id1).num_context_banks == 0 {
        Err(SmmuConfigureError::NoContextBanks)
    } else {
        Ok(spec_geometry(id0, id1))
    }
}

/// Check the SMMU geometry.
pub fn geometry_precheck(id0: u32, id1: u32) -> (r: Result<SmmuGeometry, SmmuConfigureError>)
    ensures
        r == spec_geometry_precheck(id0, id1),
        r is Ok ==> 2 <= r->Ok_0.num_pages <= 256 && 1 <= r->Ok_0.num_context_banks <= 256,
{
    let geometry = match smmu_geometry(id0, id1) {
        Some(g) => g,
        None => return Err(SmmuConfigureError::IdsUnavailable),
    };
    if id1 & SMMU_ID1_PAGESIZE != 0 {
        return Err(SmmuConfigureError::Unsupported64K);
    }
    if geometry.num_context_banks == 0 {
        return Err(SmmuConfigureError::NoContextBanks);
    }
    assert(id1 & 0xff <= 0xff) by (bit_vector);
    Ok(geometry)
}

/// Which context the DWC3 stream will use.
#[derive(Clone, Copy, PartialEq, Eq, Debug)]
pub enum ContextChoice {
    /// The stream already bypasses translation: keep it.
    PreserveBypass,
    /// Translate through bank `cbndx`, whose fault interrupt is `irptndx`.
    /// `live` is set when the bank already translated the stream, so its
    /// existing tables may be kept if they map the DMA section.
    Translate { cbndx: usize, irptndx: usize, live: bool },
}

/// The context-interrupt index of a bank: dense over the provider's list.
pub open spec fn spec_irptndx(cbndx: usize, context_irq_count: usize) -> usize {
    if context_irq_count != 0 {
        (cbndx % context_irq_count) as usize
    } else {
        cbndx
    }
}

/// The context the stream uses after a match with S2CR `old_s2cr`: keep a
/// bypass; keep a translating bank inside the stage-1 range; otherwise take
/// the last bank.
pub open spec fn spec_choose_context(
    old_s2cr: u32,
    geometry: SmmuGeometry,
    context_irq_count: usize,
) -> Result<ContextChoice, SmmuConfigureError> {
    let old_type = old_s2cr & SMMU_S2CR_TYPE_MASK;
    let old_cb = (old_s2cr & SMMU_S2CR_CBNDX_MASK) as usize;
    if old_type == SMMU_S2CR_TYPE_BYPASS {
        Ok(ContextChoice::PreserveBypass)
    } else if old_type == SMMU_S2CR_TYPE_TRANS {
        if old_cb >= geometry.num_context_banks || old_cb < geometry.num_s2_context_banks {
            Err(SmmuConfigureError::ContextBankOutOfRange)
        } else {
            Ok(
                ContextChoice::Translate {
                    cbndx: old_cb,
                    irptndx: spec_irptndx(old_cb, context_irq_count),
                    live: true,
                },
            )
        }
    } else {
        let cbndx = (geometry.num_context_banks - 1) as usize;
        Ok(
            ContextChoice::Translate {
                cbndx,
                irptndx: spec_irptndx(cbndx, context_irq_count),
                live: false,
            },
        )
    }
}

/// Choose the context for the matched stream.
pub fn choose_context(old_s2cr: u32, geometry: SmmuGeometry, context_irq_count: usize) -> (r:
    Result<ContextChoice, SmmuConfigureError>)
    requires
        geometry.num_context_banks >= 1,
    ensures
        r == spec_choose_context(old_s2cr, geometry, context_irq_count),
{
    let old_type = old_s2cr & SMMU_S2CR_TYPE_MASK;
    let old_cb = (old_s2cr & SMMU_S2CR_CBNDX_MASK) as usize;
    if old_type == SMMU_S2CR_TYPE_BYPASS {
        return Ok(ContextChoice::PreserveBypass);
    }
    let (cbndx, live) = if old_type == SMMU_S2CR_TYPE_TRANS {
        if old_cb >= geometry.num_context_banks || old_cb < geometry.num_s2_context_banks {
            return Err(SmmuConfigureError::ContextBankOutOfRange);
        }
        (old_cb, true)
    } else {
        (geometry.num_context_banks - 1, false)
    };
    let irptndx = if context_irq_count != 0 {
        cbndx % context_irq_count
    } else {
        cbndx
    };
    Ok(ContextChoice::Translate { cbndx, irptndx, live })
}

/// Where a configuration stands once the stream-match scan is done.
#[derive(Clone, Copy, PartialEq, Eq, Debug)]
pub enum ScanOutcome {
    /// The configuration is over: `Ok` with nothing written (the stream
    /// already bypasses translation, as the boot firmware left it), or the
    /// reason it failed.
    Done { result: Result<(), SmmuConfigureError> },
    /// Go on with bank `cbndx`: the fault poller now watches its page.
    Context { cbndx: usize, irptndx: usize, live: bool, fault: FaultContext },
}

/// The configuration after the scan found `matched` (the first stream-match
/// register that matches the DWC3 stream and its S2CR): no match fails; a
/// bypass is kept and succeeds; otherwise the chosen bank's page is handed
/// to the fault poller.
pub open spec fn spec_after_scan(matched: Option<(usize, u32)>, geometry: SmmuGeometry, context_irq_count: usize) -> ScanOutcome {
    match matched {
        None => ScanOutcome::Done { result: Err(SmmuConfigureError::NoStreamMatch) },
        Some((_, old_s2cr)) => match spec_choose_context(old_s2cr, geometry, context_irq_count) {
            Err(e) => ScanOutcome::Done { result: Err(e) },
            Ok(ContextChoice::PreserveBypass) => ScanOutcome::Done { result: Ok(()) },
            Ok(ContextChoice::Translate { cbndx, irptndx, live }) => ScanOutcome::Context {
                cbndx,
                irptndx,
                live,
                fault: FaultContext {
                    page: (geometry.num_pages + cbndx) as usize,
                    page_size: geometry.page_size,
                },
            },
        },
    }
}

/// Continue a configuration after the stream-match scan.
pub fn after_scan(matched: Option<(usize, u32)>, geometry: SmmuGeometry, context_irq_count: usize) -> (r: ScanOutcome)
    requires
        geometry.num_context_banks >= 1,
        geometry.num_pages <= 256,
        geometry.num_context_banks <= 256,
    ensures
        r == spec_after_scan(matched, geometry, context_irq_count),
        matched matches Some((_, s2cr)) && s2cr & SMMU_S2CR_TYPE_MASK == SMMU_S2CR_TYPE_BYPASS
            ==> r == (ScanOutcome::Done { result: Ok(()) }),
{
    match matched {
        None => ScanOutcome::Done { result: Err(SmmuConfigureError::NoStreamMatch) },
        Some((_, old_s2cr)) => match choose_context(old_s2cr, geometry, context_irq_count) {
            Err(e) => ScanOutcome::Done { result: Err(e) },
            Ok(ContextChoice::PreserveBypass) => ScanOutcome::Done { result: Ok(()) },
            Ok(ContextChoice::Translate { cbndx, irptndx, live }) => ScanOutcome::Context {
                cbndx,
                irptndx,
                live,
                fault: FaultContext { page: geometry.num_pages + cbndx, page_size: geometry.page_size },
            },
        },
    }
}

/// Whether a live translating bank may be kept: translation is on and its
/// tables map the whole DMA section as an identity.
pub fn keep_live_context(sctlr: u32, maps_identity: bool) -> (keep: bool)
    ensures
        keep == (sctlr & SMMU_SCTLR_M != 0 && maps_identity),
{
    sctlr & SMMU_SCTLR_M != 0 && maps_identity
}

/// The register values that program a stage-1 bank over the identity
/// tables and route the stream to it.
#[derive(Clone, Copy, PartialEq, Eq, Debug)]
pub struct ContextProgram {
    pub cba2r: u32,
    pub cbar: u32,
    pub tcr2: u32,
    pub tcr: u32,
    pub sctlr: u32,
    pub s2cr: u32,
}

/// The S2CR that routes the stream to `cbndx`: type TRANSLATE, bank
/// replaced, every other field kept.
pub open spec fn spec_translate_s2cr(old_s2cr: u32, cbndx: usize) -> u32 {
    ((old_s2cr & !SMMU_S2CR_CBNDX_MASK) & !SMMU_S2CR_TYPE_MASK) | ((cbndx as u32)
        & SMMU_S2CR_CBNDX_MASK) | SMMU_S2CR_TYPE_TRANS
}

/// The programming of bank `cbndx`: AArch64 format, stage-1 translation
/// with stage-2 bypass, write-back attributes and the bank's interrupt;
/// 4 KiB granule walks of a 32-bit (or, for three-level tables, 39-bit)
/// space; translation with context faults reported.
pub open spec fn spec_context_program(
    old_s2cr: u32,
    cbndx: usize,
    irptndx: usize,
    three_level: bool,
) -> ContextProgram {
    ContextProgram {
        cba2r: SMMU_CBA2R_VA64,
        cbar: SMMU_CBAR_S1_TRANS_S2_BYPASS | SMMU_CBAR_S1_MEMATTR_WB | SMMU_CBAR_S1_BPSHCFG_NSH | (
        (irptndx as u32) & SMMU_CBAR_IRPTNDX_MASK),
        tcr2: SMMU_TCR2_SEP_UPSTREAM | SMMU_TCR2_AS | SMMU_TCR2_PASIZE_40BIT,
        tcr: SMMU_TCR_EPD1 | SMMU_TCR_SH0_INNER | SMMU_TCR_ORGN0_WBWA | SMMU_TCR_IRGN0_WBWA | if three_level {
            SMMU_TCR_T0SZ_39BIT
        } else {
            SMMU_TCR_T0SZ_32BIT
        },
        sctlr: SMMU_SCTLR_S1_ASIDPNE | SMMU_SCTLR_CFIE | SMMU_SCTLR_CFRE | SMMU_SCTLR_AFE
            | SMMU_SCTLR_TRE | SMMU_SCTLR_M,
        s2cr: spec_translate_s2cr(old_s2cr, cbndx),
    }
}

/// The register values for bank `cbndx`.
pub fn context_program(old_s2cr: u32, cbndx: usize, irptndx: usize, three_level: bool) -> (p:
    ContextProgram)
    ensures
        p == spec_context_program(old_s2cr, cbndx, irptndx, three_level),
{
    let t0sz = if three_level {
        SMMU_TCR_T0SZ_39BIT
    } else {
        SMMU_TCR_T0SZ_32BIT
    };
    ContextProgram {
        cba2r: SMMU_CBA2R_VA64,
        cbar: SMMU_CBAR_S1_TRANS_S2_BYPASS | SMMU_CBAR_S1_MEMATTR_WB | SMMU_CBAR_S1_BPSHCFG_NSH | (
        (irptndx as u32) & SMMU_CBAR_IRPTNDX_MASK),
        tcr2: SMMU_TCR2_SEP_UPSTREAM | SMMU_TCR2_AS | SMMU_TCR2_PASIZE_40BIT,
        tcr: SMMU_TCR_EPD1 | SMMU_TCR_SH0_INNER | SMMU_TCR_ORGN0_WBWA | SMMU_TCR_IRGN0_WBWA | t0sz,
        sctlr: SMMU_SCTLR_S1_ASIDPNE | SMMU_SCTLR_CFIE | SMMU_SCTLR_CFRE | SMMU_SCTLR_AFE
            | SMMU_SCTLR_TRE | SMMU_SCTLR_M,
        s2cr: ((old_s2cr & !SMMU_S2CR_CBNDX_MASK) & !SMMU_S2CR_TYPE_MASK) | ((cbndx as u32)
            & SMMU_S2CR_CBNDX_MASK) | SMMU_S2CR_TYPE_TRANS,
    }
}

/// Whether the S2CR read back routes the stream to `cbndx` by translation.
pub fn translate_s2cr_accepted(readback: u32, cbndx: usize) -> (ok: bool)
    ensures
        ok == (readback & SMMU_S2CR_TYPE_MASK == SMMU_S2CR_TYPE_TRANS && (readback
            & SMMU_S2CR_CBNDX_MASK) as usize == cbndx),
{
    readback & SMMU_S2CR_TYPE_MASK == SMMU_S2CR_TYPE_TRANS && (readback & SMMU_S2CR_CBNDX_MASK)
        as usize == cbndx
}

} // verus!

verus! {

use crate::mmio::{SMMU_DESC_TABLE};

/// Attributes of an identity block: valid, accessed, inner shareable,
/// normal memory, never executable.
pub const IDENTITY_BLOCK_FLAGS: u64 = 0x0060_0000_0000_0701;

/// Bytes of one 2 MiB block.
pub const BLOCK_SIZE: u64 = 0x20_0000;

/// Entries of one translation table.
pub const TABLE_ENTRIES: usize = 512;

/// Whether a DMA pool can be identity mapped by 2 MiB blocks below 4 GiB.
pub open spec fn identity_pool_ok(pool_base: u64, pool_size: u64) -> bool {
    &&& pool_base + pool_size <= u64::MAX
    &&& pool_base % 0x20_0000 == 0
    &&& (pool_base + pool_size) % 0x20_0000 == 0
    &&& pool_base + pool_size <= 0x1_0000_0000
    &&& pool_size > 0
}

/// Level-1 entry `i` of the identity tables: a table descriptor for L2
/// table `i` when its gigabyte overlaps the pool, otherwise invalid.
pub open spec fn identity_l1_entry(l2_base: u64, pool_base: u64, pool_end: u64, i: int) -> u64 {
    if 0 <= i < 4 && pool_base < (i + 1) * 0x4000_0000 && pool_end > i * 0x4000_0000 {
        ((l2_base + i * 0x1000) as u64) | SMMU_DESC_TABLE
    } else {
        0
    }
}

/// Entry `k` of the four level-2 tables laid end to end: block `k` (at
/// `k` * 2 MiB) maps itself when it lies wholly in the pool.
pub open spec fn identity_l2_entry(pool_base: u64, pool_end: u64, k: int) -> u64 {
    if pool_base <= k * 0x20_0000 && k * 0x20_0000 + 0x20_0000 <= pool_end {
        ((k * 0x20_0000) as u64) | IDENTITY_BLOCK_FLAGS
    } else {
        0
    }
}

/// Identity translation tables: 512 level-1 entries and four level-2
/// tables of 512 entries each, laid end to end.
pub struct IdentityTables {
    pub l1: Vec<u64>,
    pub l2: Vec<u64>,
}

/// The tables are exactly the identity tables of the pool, with the level-2
/// tables placed at `l2_base`.
pub open spec fn is_identity_tables(
    t: IdentityTables,
    l2_base: u64,
    pool_base: u64,
    pool_end: u64,
) -> bool {
    &&& t.l1@.len() == 512
    &&& t.l2@.len() == 2048
    &&& forall|i: int| 0 <= i < 512 ==> #[trigger] t.l1@[i] == identity_l1_entry(l2_base, pool_base, pool_end, i)
    &&& forall|k: int| 0 <= k < 2048 ==> #[trigger] t.l2@[k] == identity_l2_entry(pool_base, pool_end, k)
}

/// Build the identity tables for the pool, with the level-2 tables to be
/// placed at `l2_base` (4 KiB aligned). `None` when the pool is not 2 MiB
/// aligned, empty, or reaches above 4 GiB.
pub fn build_identity_tables(pool_base: u64, pool_size: u64, l2_base: u64) -> (r: Option<
    IdentityTables,
>)
    requires
        l2_base % 0x1000 == 0,
        l2_base + 0x4000 <= u64::MAX,
    ensures
        match r {
            Some(t) => identity_pool_ok(pool_base, pool_size) && is_identity_tables(
                t,
                l2_base,
                pool_base,
                (pool_base + pool_size) as u64,
            ),
            None => !identity_pool_ok(pool_base, pool_size),
        },
{
    let pool_end = match pool_base.checked_add(pool_size) {
        Some(end) => end,
        None => return None,
    };
    if pool_base % 0x20_0000 != 0 || pool_end % 0x20_0000 != 0 || pool_end > 0x1_0000_0000
        || pool_base >= pool_end {
        return None;
    }
    let mut l1: Vec<u64> = Vec::new();
    let mut i: usize = 0;
    while i < 512
        invariant
            i <= 512,
            l1@.len() == i,
            pool_end == pool_base + pool_size,
            pool_end <= 0x1_0000_0000,
            l2_base + 0x4000 <= u64::MAX,
            forall|j: int| 0 <= j < i ==> #[trigger] l1@[j] == identity_l1_entry(l2_base, pool_base, pool_end, j),
        decreases 512 - i,
    {
        let entry: u64 = if i < 4 && pool_base < ((i as u64) + 1) * 0x4000_0000 && pool_end > (i
            as u64) * 0x4000_0000 {
            (l2_base + (i as u64) * 0x1000) | SMMU_DESC_TABLE
        } else {
            0
        };
        l1.push(entry);
        i += 1;
    }
    let mut l2: Vec<u64> = Vec::new();
    let mut k: usize = 0;
    while k < 2048
        invariant
            k <= 2048,
            l2@.len() == k,
            pool_end == pool_base + pool_size,
            pool_end <= 0x1_0000_0000,
            forall|j: int| 0 <= j < k ==> #[trigger] l2@[j] == identity_l2_entry(pool_base, pool_end, j),
        decreases 2048 - k,
    {
        let physical: u64 = (k as u64) * 0x20_0000;
        let entry: u64 = if pool_base <= physical && physical + 0x20_0000 <= pool_end {
            physical | IDENTITY_BLOCK_FLAGS
        } else {
            0
        };
        l2.push(entry);
        k += 1;
    }
    Some(IdentityTables { l1, l2 })
}

/// The memory the identity tables occupy once placed: level 1 at
/// `l1_base`, the level-2 tables at `l2_base`, nothing else.
pub open spec fn table_memory(l1_base: u64, l1: Seq<u64>, l2_base: u64, l2: Seq<u64>) -> spec_fn(
    u64,
) -> u64 {
    |a: u64|
        if l1_base <= a < l1_base + 0x1000 {
            l1[(a - l1_base) / 8]
        } else if l2_base <= a < l2_base + 0x4000 {
            l2[(a - l2_base) / 8]
        } else {
            0
        }
}

proof fn lemma_aligned_table_base(base: u64)
    requires
        base % 0x1000 == 0,
    ensures
        table_base(base) == base,
        table_base(base | 3) == base,
        (base | 3) & 1 != 0,
        (base | 3) & 2 != 0,
{
    assert(base & 0xfff == 0) by (bit_vector)
        requires
            base % 0x1000 == 0,
    ;
    assert(base & !0xfffu64 == base && (base | 3) & !0xfffu64 == base && (base | 3) & 1 != 0 && (
    base | 3) & 2 != 0) by (bit_vector)
        requires
            base & 0xfff == 0,
    ;
}

proof fn lemma_iova_split(iova: u64)
    requires
        iova < 0x80_0000_0000,
    ensures
        l1_index(iova) == iova / 0x4000_0000,
        l2_index(iova) == (iova / 0x20_0000) % 512,
        l1_index(iova) * 512 + l2_index(iova) == iova / 0x20_0000,
        (iova / 0x20_0000) * 0x20_0000 == iova & !0x1f_ffffu64,
        ((iova & !0x1f_ffffu64) | (iova & 0x1f_ffff)) == iova,
{
    assert((iova >> 30u64) & 0x1ff == iova / 0x4000_0000 && (iova >> 21u64) & 0x1ff == (iova
        / 0x20_0000) % 512 && ((iova >> 30u64) & 0x1ff) * 512 + ((iova >> 21u64) & 0x1ff) == iova
        / 0x20_0000 && (iova / 0x20_0000) * 0x20_0000 == iova & !0x1f_ffffu64 && ((iova
        & !0x1f_ffffu64) | (iova & 0x1f_ffff)) == iova) by (bit_vector)
        requires
            iova < 0x80_0000_0000,
    ;
}

proof fn lemma_block_descriptor(physical: u64, iova: u64)
    requires
        physical == iova & !0x1f_ffffu64,
        iova < 0x1_0000_0000,
        iova % 0x1000 == 0,
    ensures
        (physical | IDENTITY_BLOCK_FLAGS) & 1 != 0,
        (physical | IDENTITY_BLOCK_FLAGS) & 2 == 0,
        block_output(physical | IDENTITY_BLOCK_FLAGS, iova) == Some(iova),
{
    assert(iova & 0xfff == 0) by (bit_vector)
        requires
            iova % 0x1000 == 0,
    ;
    assert((physical | 0x0060_0000_0000_0701u64) & 1 != 0 && (physical | 0x0060_0000_0000_0701u64)
        & 2 == 0 && (iova & 0x1f_ffff) + 0x1000 <= 0x20_0000 && ((physical
        | 0x0060_0000_0000_0701u64) & 0x000f_ffff_ffff_f000u64) | (iova & 0x1f_ffff) == iova)
        by (bit_vector)
        requires
            physical == iova & !0x1f_ffffu64,
            iova < 0x1_0000_0000,
            iova & 0xfff == 0,
    ;
}

/// The identity tables map exactly the pool: walking them (from level 1,
/// for any page-aligned address of the 39-bit space) gives back the address
/// itself inside the pool, and no translation outside it.
pub proof fn lemma_identity_tables_map_exactly_the_pool(
    t: IdentityTables,
    l1_base: u64,
    l2_base: u64,
    pool_base: u64,
    pool_size: u64,
    iova: u64,
)
    requires
        identity_pool_ok(pool_base, pool_size),
        is_identity_tables(t, l2_base, pool_base, (pool_base + pool_size) as u64),
        l1_base % 0x1000 == 0,
        l2_base % 0x1000 == 0,
        l1_base + 0x1000 <= l2_base || l2_base + 0x4000 <= l1_base,
        l1_base + 0x1000 <= u64::MAX,
        l2_base + 0x4000 <= u64::MAX,
        iova < 0x80_0000_0000,
        iova % 0x1000 == 0,
    ensures
        walk(table_memory(l1_base, t.l1@, l2_base, t.l2@), l1_base, true, iova) == if pool_base
            <= iova < pool_base + pool_size {
            Some(iova)
        } else {
            None::<u64>
        },
{
    let pool_end = (pool_base + pool_size) as u64;
    let mem = table_memory(l1_base, t.l1@, l2_base, t.l2@);
    lemma_iova_split(iova);
    lemma_aligned_table_base(l1_base);
    let i = l1_index(iova) as int;
    let a1 = entry_address(table_base(l1_base), l1_index(iova));
    assert(a1 == l1_base + i * 8);
    assert(mem(a1) == t.l1@[i]);
    let l1 = t.l1@[i];
    assert(l1 == identity_l1_entry(l2_base, pool_base, pool_end, i));
    let in_pool = pool_base <= iova < pool_end;
    assert(0u64 & 1 == 0) by (bit_vector);
    if i < 4 && pool_base < (i + 1) * 0x4000_0000 && pool_end > i * 0x4000_0000 {
        let t2 = (l2_base + i * 0x1000) as u64;
        assert(t2 % 0x1000 == 0);
        lemma_aligned_table_base(t2);
        assert(l1 == t2 | 3);
        let j = l2_index(iova) as int;
        let a2 = entry_address(t2, l2_index(iova));
        assert(a2 == l2_base + (i * 512 + j) * 8);
        let k = i * 512 + j;
        assert(mem(a2) == t.l2@[k]);
        assert(k == iova / 0x20_0000);
        let physical = iova & !0x1f_ffffu64;
        assert(k * 0x20_0000 == physical);
        assert(iova < 0x1_0000_0000);
        // The block lies in the pool exactly when the address does: both
        // pool ends are 2 MiB aligned.
        assert((pool_base <= k * 0x20_0000 && k * 0x20_0000 + 0x20_0000 <= pool_end) == in_pool)
            by (nonlinear_arith)
            requires
                k * 0x20_0000 <= iova < k * 0x20_0000 + 0x20_0000,
                pool_base % 0x20_0000 == 0,
                pool_end % 0x20_0000 == 0,
                in_pool == (pool_base <= iova < pool_end),
        ;
        if in_pool {
            lemma_block_descriptor(physical, iova);
            assert(t.l2@[k] == physical | IDENTITY_BLOCK_FLAGS);
            assert(walk(mem, l1_base, true, iova) == Some(iova));
        } else {
            assert(t.l2@[k] == 0);
            assert(walk(mem, l1_base, true, iova) == None::<u64>);
        }
    } else {
        assert(l1 == 0);
        assert(!in_pool) by (nonlinear_arith)
            requires
                i * 0x4000_0000 <= iova < (i + 1) * 0x4000_0000,
                pool_end <= 0x1_0000_0000,
                !(i < 4 && pool_base < (i + 1) * 0x4000_0000 && pool_end > i * 0x4000_0000),
                in_pool == (pool_base <= iova < pool_end),
                0 <= i,
        ;
    }
}

} // verus!

verus! {

use crate::mmio::{SMMU_DESC_ADDRESS_MASK};

/// Whether a live context's format is one the identity check reads: a
/// plausible TTBR0, a nonempty range below 2^39, a 4 KiB granule (TCR.TG0
/// 0) and an input size of 30 to 39 bits.
pub open spec fn identity_params_ok(ttbr0: u64, tcr: u32, start: u64, end: u64) -> bool {
    &&& ttbr0 != 0 && ttbr0 != 0xffff_ffff_ffff_ffffu64
    &&& start < end
    &&& end <= 0x80_0000_0000
    &&& (tcr >> 14u32) & 3 == 0
    &&& 30 <= 64 - (tcr & 0x3f) <= 39
}

/// The level-1 table of a TTBR0: its address bits, without the ASID.
pub open spec fn identity_root(ttbr0: u64) -> u64 {
    ttbr0 & 0x0000_ffff_ffff_f000
}

/// The address of entry `index` of the table at `base`, when it is
/// addressable.
pub open spec fn entry_at(base: u64, index: u64) -> Option<u64> {
    if base + index * 8 > u64::MAX || base + index * 8 > usize::MAX {
        None
    } else {
        Some((base + index * 8) as u64)
    }
}

/// Whether the 2 MiB block at `address` is identity mapped by the tables
/// under `root` in `mem`: by a 1 GiB block, a 2 MiB block, or a 4 KiB page
/// at the address itself.
pub open spec fn maps_block(mem: spec_fn(u64) -> u64, root: u64, address: u64) -> bool {
    match entry_at(root, (address >> 30u64) & 0x1ff) {
        None => false,
        Some(a1) => {
            let l1 = mem(a1);
            if l1 & 3 == 1 {
                l1 & SMMU_DESC_ADDRESS_MASK == address & !0x3fff_ffffu64 && l1 & 1 != 0
            } else if l1 & 3 == 3 {
                match entry_at(l1 & SMMU_DESC_ADDRESS_MASK, (address >> 21u64) & 0x1ff) {
                    None => false,
                    Some(a2) => {
                        let l2 = mem(a2);
                        if l2 & 3 == 1 {
                            l2 & SMMU_DESC_ADDRESS_MASK == address & !0x1f_ffffu64 && l2 & 1 != 0
                        } else if l2 & 3 == 3 {
                            match entry_at(l2 & SMMU_DESC_ADDRESS_MASK, (address >> 12u64) & 0x1ff) {
                                None => false,
                                Some(a3) => {
                                    let l3 = mem(a3);
                                    l3 & 3 == 3 && l3 & SMMU_DESC_ADDRESS_MASK == address
                                        & !0xfffu64 && l3 & 1 != 0
                                },
                            }
                        } else {
                            false
                        }
                    },
                }
            } else {
                false
            }
        },
    }
}

/// Whether every 2 MiB block from `address` up to `end` is identity
/// mapped.
pub open spec fn blocks_mapped(mem: spec_fn(u64) -> u64, root: u64, address: u64, end: u64) -> bool
    decreases end + 0x20_0000 - address,
{
    if address >= end {
        true
    } else if address + 0x20_0000 > u64::MAX {
        maps_block(mem, root, address)
    } else {
        maps_block(mem, root, address) && blocks_mapped(
            mem,
            root,
            (address + 0x20_0000) as u64,
            end,
        )
    }
}

/// Whether a live context maps the range `start..end` as an identity, in a
/// format the check reads.
pub open spec fn maps_identity(mem: spec_fn(u64) -> u64, ttbr0: u64, tcr: u32, start: u64, end: u64) -> bool {
    identity_params_ok(ttbr0, tcr, start, end) && blocks_mapped(
        mem,
        identity_root(ttbr0),
        start & !0x1f_ffffu64,
        end,
    )
}

/// Where the identity check stands: reading the entry of `level` for the
/// block at `block`.
#[derive(Clone, Copy, PartialEq, Eq, Debug)]
pub struct IdentityCursor {
    pub level: WalkLevel,
    pub root: u64,
    pub block: u64,
    pub end: u64,
}

/// The next step of the identity check.
#[derive(Clone, Copy, PartialEq, Eq, Debug)]
pub enum IdentityStep {
    /// Read the descriptor at `address` and continue from `cursor`.
    Read { address: u64, cursor: IdentityCursor },
    /// The check is over.
    Done { maps: bool },
}

/// The first read for the block at `block` (or the end of the check).
pub open spec fn spec_block_start(root: u64, block: u64, end: u64) -> IdentityStep {
    if block >= end {
        IdentityStep::Done { maps: true }
    } else {
        match entry_at(root, (block >> 30u64) & 0x1ff) {
            None => IdentityStep::Done { maps: false },
            Some(a) => IdentityStep::Read {
                address: a,
                cursor: IdentityCursor { level: WalkLevel::L1, root, block, end },
            },
        }
    }
}

/// The step after the block at `block` was found mapped.
pub open spec fn spec_block_advance(root: u64, block: u64, end: u64) -> IdentityStep {
    if block + 0x20_0000 > u64::MAX {
        IdentityStep::Done { maps: true }
    } else {
        spec_block_start(root, (block + 0x20_0000) as u64, end)
    }
}

/// The first step of the identity check of `start..end`.
pub open spec fn spec_identity_begin(ttbr0: u64, tcr: u32, start: u64, end: u64) -> IdentityStep {
    if !identity_params_ok(ttbr0, tcr, start, end) {
        IdentityStep::Done { maps: false }
    } else {
        spec_block_start(identity_root(ttbr0), start & !0x1f_ffffu64, end)
    }
}

/// The step after reading `d` at `cursor`.
pub open spec fn spec_identity_next(c: IdentityCursor, d: u64) -> IdentityStep {
    let address = c.block;
    match c.level {
        WalkLevel::L1 => if d & 3 == 1 {
            if d & SMMU_DESC_ADDRESS_MASK == address & !0x3fff_ffffu64 && d & 1 != 0 {
                spec_block_advance(c.root, c.block, c.end)
            } else {
                IdentityStep::Done { maps: false }
            }
        } else if d & 3 == 3 {
            match entry_at(d & SMMU_DESC_ADDRESS_MASK, (address >> 21u64) & 0x1ff) {
                None => IdentityStep::Done { maps: false },
                Some(a) => IdentityStep::Read { address: a, cursor: IdentityCursor { level: WalkLevel::L2, ..c } },
            }
        } else {
            IdentityStep::Done { maps: false }
        },
        WalkLevel::L2 => if d & 3 == 1 {
            if d & SMMU_DESC_ADDRESS_MASK == address & !0x1f_ffffu64 && d & 1 != 0 {
                spec_block_advance(c.root, c.block, c.end)
            } else {
                IdentityStep::Done { maps: false }
            }
        } else if d & 3 == 3 {
            match entry_at(d & SMMU_DESC_ADDRESS_MASK, (address >> 12u64) & 0x1ff) {
                None => IdentityStep::Done { maps: false },
                Some(a) => IdentityStep::Read { address: a, cursor: IdentityCursor { level: WalkLevel::L3, ..c } },
            }
        } else {
            IdentityStep::Done { maps: false }
        },
        WalkLevel::L3 => if d & 3 == 3 && d & SMMU_DESC_ADDRESS_MASK == address & !0xfffu64 && d & 1
            != 0 {
            spec_block_advance(c.root, c.block, c.end)
        } else {
            IdentityStep::Done { maps: false }
        },
    }
}

fn entry_at_exec(base: u64, index: u64) -> (r: Option<u64>)
    requires
        index <= 0x1ff,
    ensures
        r == entry_at(base, index),
{
    let offset = index * 8;
    match base.checked_add(offset) {
        Some(a) => {
            if a <= usize::MAX as u64 {
                Some(a)
            } else {
                None
            }
        },
        None => None,
    }
}

proof fn lemma_index_bound(x: u64, shift: u64)
    requires
        shift == 12 || shift == 21 || shift == 30,
    ensures
        (x >> shift) & 0x1ff <= 0x1ff,
{
    assert((x >> 12u64) & 0x1ff <= 0x1ff && (x >> 21u64) & 0x1ff <= 0x1ff && (x >> 30u64) & 0x1ff
        <= 0x1ff) by (bit_vector);
}

fn block_start(root: u64, block: u64, end: u64) -> (s: IdentityStep)
    ensures
        s == spec_block_start(root, block, end),
{
    if block >= end {
        return IdentityStep::Done { maps: true };
    }
    proof {
        lemma_index_bound(block, 30);
    }
    match entry_at_exec(root, (block >> 30) & 0x1ff) {
        None => IdentityStep::Done { maps: false },
        Some(a) => IdentityStep::Read {
            address: a,
            cursor: IdentityCursor { level: WalkLevel::L1, root, block, end },
        },
    }
}

fn block_advance(root: u64, block: u64, end: u64) -> (s: IdentityStep)
    ensures
        s == spec_block_advance(root, block, end),
{
    match block.checked_add(0x20_0000) {
        None => IdentityStep::Done { maps: true },
        Some(next) => block_start(root, next, end),
    }
}

/// Begin the identity check of `start..end` under a live context.
pub fn identity_check_begin(ttbr0: u64, tcr: u32, start: u64, end: u64) -> (s: IdentityStep)
    ensures
        s == spec_identity_begin(ttbr0, tcr, start, end),
{
    let t0sz = tcr & 0x3f;
    assert(t0sz <= 63) by (bit_vector)
        requires
            t0sz == tcr & 0x3f,
    ;
    let iova_bits = 64 - t0sz;
    if ttbr0 == 0 || ttbr0 == u64::MAX || start >= end || end > 0x80_0000_0000 || (tcr >> 14) & 3
        != 0 || iova_bits < 30 || iova_bits > 39 {
        return IdentityStep::Done { maps: false };
    }
    block_start(ttbr0 & 0x0000_ffff_ffff_f000, start & !0x1f_ffffu64, end)
}

/// Continue the identity check with the descriptor just read.
pub fn identity_check_next(c: IdentityCursor, d: u64) -> (s: IdentityStep)
    ensures
        s == spec_identity_next(c, d),
{
    let address = c.block;
    proof {
        lemma_index_bound(address, 21);
        lemma_index_bound(address, 12);
    }
    match c.level {
        WalkLevel::L1 => {
            if d & 3 == 1 {
                if d & SMMU_DESC_ADDRESS_MASK == address & !0x3fff_ffffu64 && d & 1 != 0 {
                    block_advance(c.root, c.block, c.end)
                } else {
                    IdentityStep::Done { maps: false }
                }
            } else if d & 3 == 3 {
                match entry_at_exec(d & SMMU_DESC_ADDRESS_MASK, (address >> 21) & 0x1ff) {
                    None => IdentityStep::Done { maps: false },
                    Some(a) => IdentityStep::Read {
                        address: a,
                        cursor: IdentityCursor { level: WalkLevel::L2, ..c },
                    },
                }
            } else {
                IdentityStep::Done { maps: false }
            }
        },
        WalkLevel::L2 => {
            if d & 3 == 1 {
                if d & SMMU_DESC_ADDRESS_MASK == address & !0x1f_ffffu64 && d & 1 != 0 {
                    block_advance(c.root, c.block, c.end)
                } else {
                    IdentityStep::Done { maps: false }
                }
            } else if d & 3 == 3 {
                match entry_at_exec(d & SMMU_DESC_ADDRESS_MASK, (address >> 12) & 0x1ff) {
                    None => IdentityStep::Done { maps: false },
                    Some(a) => IdentityStep::Read {
                        address: a,
                        cursor: IdentityCursor { level: WalkLevel::L3, ..c },
                    },
                }
            } else {
                IdentityStep::Done { maps: false }
            }
        },
        WalkLevel::L3 => {
            if d & 3 == 3 && d & SMMU_DESC_ADDRESS_MASK == address & !0xfffu64 && d & 1 != 0 {
                block_advance(c.root, c.block, c.end)
            } else {
                IdentityStep::Done { maps: false }
            }
        },
    }
}

/// Drive the identity check against memory `mem` for at most `fuel` reads.
pub open spec fn run_identity(mem: spec_fn(u64) -> u64, step: IdentityStep, fuel: nat) -> bool
    decreases fuel,
{
    match step {
        IdentityStep::Done { maps } => maps,
        IdentityStep::Read { address, cursor } => if fuel == 0 {
            false
        } else {
            run_identity(mem, spec_identity_next(cursor, mem(address)), (fuel - 1) as nat)
        },
    }
}

/// The number of 2 MiB blocks from `address` up to `end`.
pub open spec fn block_count(address: u64, end: u64) -> nat
    decreases end + 0x20_0000 - address,
{
    if address >= end {
        0
    } else if address + 0x20_0000 > u64::MAX {
        1
    } else {
        1 + block_count((address + 0x20_0000) as u64, end)
    }
}

proof fn lemma_blocks_from(mem: spec_fn(u64) -> u64, root: u64, block: u64, end: u64, fuel: nat)
    requires
        fuel >= 3 * block_count(block, end),
    ensures
        run_identity(mem, spec_block_start(root, block, end), fuel) == blocks_mapped(
            mem,
            root,
            block,
            end,
        ),
    decreases end + 0x20_0000 - block,
{
    reveal_with_fuel(run_identity, 4);
    if block < end && block + 0x20_0000 <= u64::MAX {
        let next = (block + 0x20_0000) as u64;
        assert(block_count(block, end) == 1 + block_count(next, end));
        lemma_blocks_from(mem, root, next, end, (fuel - 1) as nat);
        lemma_blocks_from(mem, root, next, end, (fuel - 2) as nat);
        lemma_blocks_from(mem, root, next, end, (fuel - 3) as nat);
    }
}

/// Driving the identity check with the descriptors a memory holds gives
/// exactly whether that memory's live context maps `start..end` as an
/// identity, given three reads per 2 MiB block.
pub proof fn lemma_identity_check_decides(
    mem: spec_fn(u64) -> u64,
    ttbr0: u64,
    tcr: u32,
    start: u64,
    end: u64,
    fuel: nat,
)
    requires
        fuel >= 3 * block_count(start & !0x1f_ffffu64, end),
    ensures
        run_identity(mem, spec_identity_begin(ttbr0, tcr, start, end), fuel) == maps_identity(
            mem,
            ttbr0,
            tcr,
            start,
            end,
        ),
{
    if identity_params_ok(ttbr0, tcr, start, end) {
        lemma_blocks_from(mem, identity_root(ttbr0), start & !0x1f_ffffu64, end, fuel);
    }
}

} // verus!

verus! {

/// Where the scan for any mapped page stands: the level-1, level-2 and
/// level-3 indices and tables, and the level of the entry read next.
#[derive(Clone, Copy, PartialEq, Eq, Debug)]
pub struct ScanCursor {
    pub three_level: bool,
    pub level: WalkLevel,
    pub l1_table: u64,
    pub l2_table: u64,
    pub l3_table: u64,
    pub l1: u64,
    pub l2: u64,
    pub l3: u64,
}

/// The next step of the scan.
#[derive(Clone, Copy, PartialEq, Eq, Debug)]
pub enum ScanStep {
    /// Read the descriptor at `address` and continue from `cursor`.
    Read { address: u64, cursor: ScanCursor },
    /// The scan is over: a mapped (IOVA, physical) page, or none.
    Done { found: Option<(u64, u64)> },
}

/// The entry the cursor reads next.
pub open spec fn scan_address(c: ScanCursor) -> u64 {
    match c.level {
        WalkLevel::L1 => entry_address(c.l1_table, c.l1),
        WalkLevel::L2 => entry_address(c.l2_table, c.l2),
        WalkLevel::L3 => entry_address(c.l3_table, c.l3),
    }
}

/// A read of the cursor's entry.
pub open spec fn scan_read(c: ScanCursor) -> ScanStep {
    ScanStep::Read { address: scan_address(c), cursor: c }
}

/// The IOVA of level-1 entry `l1` and level-2 entry `l2`.
pub open spec fn scan_iova(l1: u64, l2: u64) -> u64 {
    (l1 << 30u64) | (l2 << 21u64)
}

/// Move to the next level-1 entry (three-level tables only), or finish.
pub open spec fn scan_next_l1(c: ScanCursor) -> ScanStep {
    if c.three_level && c.l1 + 1 < 512 {
        scan_read(ScanCursor { level: WalkLevel::L1, l1: (c.l1 + 1) as u64, ..c })
    } else {
        ScanStep::Done { found: None }
    }
}

/// Move to the next level-2 entry, or on to the next level-1 entry.
pub open spec fn scan_next_l2(c: ScanCursor) -> ScanStep {
    if c.l2 + 1 < 512 {
        scan_read(ScanCursor { level: WalkLevel::L2, l2: (c.l2 + 1) as u64, ..c })
    } else {
        scan_next_l1(c)
    }
}

/// Move to the next level-3 entry, or on to the next level-2 entry.
pub open spec fn scan_next_l3(c: ScanCursor) -> ScanStep {
    if c.l3 + 1 < 512 {
        scan_read(ScanCursor { level: WalkLevel::L3, l3: (c.l3 + 1) as u64, ..c })
    } else {
        scan_next_l2(c)
    }
}

/// The first step of the scan of the context whose TTBR0 is `ttbr0`.
pub open spec fn spec_scan_begin(ttbr0: u64, three_level: bool) -> ScanStep {
    let root = table_base(ttbr0);
    if three_level {
        scan_read(
            ScanCursor {
                three_level,
                level: WalkLevel::L1,
                l1_table: root,
                l2_table: 0,
                l3_table: 0,
                l1: 0,
                l2: 0,
                l3: 0,
            },
        )
    } else {
        scan_read(
            ScanCursor {
                three_level,
                level: WalkLevel::L2,
                l1_table: root,
                l2_table: root,
                l3_table: 0,
                l1: 0,
                l2: 0,
                l3: 0,
            },
        )
    }
}

/// The step after reading `d` at the cursor: an invalid or non-table
/// level-1 entry is skipped; a valid level-2 block is the answer (its first
/// 4 KiB); a valid level-2 table is scanned; a valid level-3 page (bit 1
/// clear) with a nonzero address is the answer.
pub open spec fn spec_scan_next(c: ScanCursor, d: u64) -> ScanStep {
    match c.level {
        WalkLevel::L1 => if d & 1 == 0 || d & 2 == 0 {
            scan_next_l1(c)
        } else {
            scan_read(ScanCursor { level: WalkLevel::L2, l2_table: table_base(d), l2: 0, ..c })
        },
        WalkLevel::L2 => if d & 1 == 0 {
            scan_next_l2(c)
        } else if d & 2 == 0 {
            ScanStep::Done { found: Some((scan_iova(c.l1, c.l2), d & DESC_ADDRESS_MASK)) }
        } else {
            scan_read(ScanCursor { level: WalkLevel::L3, l3_table: table_base(d), l3: 0, ..c })
        },
        WalkLevel::L3 => if d & 1 == 0 || d & 2 != 0 || d & DESC_ADDRESS_MASK == 0 {
            scan_next_l3(c)
        } else {
            ScanStep::Done {
                found: Some((scan_iova(c.l1, c.l2) | (c.l3 << 12u64), d & DESC_ADDRESS_MASK)),
            }
        },
    }
}

proof fn lemma_scan_address_fits(c: ScanCursor)
    requires
        c.l1 < 512,
        c.l2 < 512,
        c.l3 < 512,
        c.l1_table & 0xfff == 0,
        c.l2_table & 0xfff == 0,
        c.l3_table & 0xfff == 0,
    ensures
        c.l1_table + c.l1 * 8 <= u64::MAX,
        c.l2_table + c.l2 * 8 <= u64::MAX,
        c.l3_table + c.l3 * 8 <= u64::MAX,
{
    let (a, b, t) = (c.l1_table, c.l2_table, c.l3_table);
    assert(a <= 0xffff_ffff_ffff_f000u64 && b <= 0xffff_ffff_ffff_f000u64 && t
        <= 0xffff_ffff_ffff_f000u64) by (bit_vector)
        requires
            a & 0xfff == 0,
            b & 0xfff == 0,
            t & 0xfff == 0,
    ;
}

proof fn lemma_table_base_aligned(x: u64)
    ensures
        table_base(x) & 0xfff == 0,
{
    assert((x & !0xfffu64) & 0xfff == 0) by (bit_vector);
}

/// A cursor the scan machine can be in.
pub open spec fn scan_cursor_wf(c: ScanCursor) -> bool {
    &&& c.l1 < 512 && c.l2 < 512 && c.l3 < 512
    &&& c.l1_table & 0xfff == 0 && c.l2_table & 0xfff == 0 && c.l3_table & 0xfff == 0
    &&& !c.three_level ==> c.l1 == 0
}

fn scan_read_exec(c: ScanCursor) -> (s: ScanStep)
    requires
        scan_cursor_wf(c),
    ensures
        s == scan_read(c),
{
    proof {
        lemma_scan_address_fits(c);
    }
    let address = match c.level {
        WalkLevel::L1 => c.l1_table + c.l1 * 8,
        WalkLevel::L2 => c.l2_table + c.l2 * 8,
        WalkLevel::L3 => c.l3_table + c.l3 * 8,
    };
    ScanStep::Read { address, cursor: c }
}

fn scan_next_l1_exec(c: ScanCursor) -> (s: ScanStep)
    requires
        scan_cursor_wf(c),
    ensures
        s == scan_next_l1(c),
{
    if c.three_level && c.l1 + 1 < 512 {
        scan_read_exec(ScanCursor { level: WalkLevel::L1, l1: c.l1 + 1, ..c })
    } else {
        ScanStep::Done { found: None }
    }
}

fn scan_next_l2_exec(c: ScanCursor) -> (s: ScanStep)
    requires
        scan_cursor_wf(c),
    ensures
        s == scan_next_l2(c),
{
    if c.l2 + 1 < 512 {
        scan_read_exec(ScanCursor { level: WalkLevel::L2, l2: c.l2 + 1, ..c })
    } else {
        scan_next_l1_exec(c)
    }
}

fn scan_next_l3_exec(c: ScanCursor) -> (s: ScanStep)
    requires
        scan_cursor_wf(c),
    ensures
        s == scan_next_l3(c),
{
    if c.l3 + 1 < 512 {
        scan_read_exec(ScanCursor { level: WalkLevel::L3, l3: c.l3 + 1, ..c })
    } else {
        scan_next_l2_exec(c)
    }
}

/// Begin the scan for any mapped page of a live context.
pub fn scan_begin(ttbr0: u64, three_level: bool) -> (s: ScanStep)
    ensures
        s == spec_scan_begin(ttbr0, three_level),
        s matches ScanStep::Read { cursor, .. } ==> scan_cursor_wf(cursor),
{
    proof {
        lemma_table_base_aligned(ttbr0);
        assert(0u64 & 0xfff == 0) by (bit_vector);
    }
    let root = ttbr0 & !0xfffu64;
    if three_level {
        scan_read_exec(
            ScanCursor {
                three_level,
                level: WalkLevel::L1,
                l1_table: root,
                l2_table: 0,
                l3_table: 0,
                l1: 0,
                l2: 0,
                l3: 0,
            },
        )
    } else {
        scan_read_exec(
            ScanCursor {
                three_level,
                level: WalkLevel::L2,
                l1_table: root,
                l2_table: root,
                l3_table: 0,
                l1: 0,
                l2: 0,
                l3: 0,
            },
        )
    }
}

/// Continue the scan with the descriptor just read.
pub fn scan_next(c: ScanCursor, d: u64) -> (s: ScanStep)
    requires
        scan_cursor_wf(c),
    ensures
        s == spec_scan_next(c, d),
        s matches ScanStep::Read { cursor, .. } ==> scan_cursor_wf(cursor),
{
    proof {
        lemma_table_base_aligned(d);
    }
    match c.level {
        WalkLevel::L1 => {
            if d & 1 == 0 || d & 2 == 0 {
                scan_next_l1_exec(c)
            } else {
                scan_read_exec(ScanCursor { level: WalkLevel::L2, l2_table: d & !0xfffu64, l2: 0, ..c })
            }
        },
        WalkLevel::L2 => {
            if d & 1 == 0 {
                scan_next_l2_exec(c)
            } else if d & 2 == 0 {
                ScanStep::Done { found: Some((((c.l1 << 30) | (c.l2 << 21)), d & DESC_ADDRESS_MASK)) }
            } else {
                scan_read_exec(ScanCursor { level: WalkLevel::L3, l3_table: d & !0xfffu64, l3: 0, ..c })
            }
        },
        WalkLevel::L3 => {
            if d & 1 == 0 || d & 2 != 0 || d & DESC_ADDRESS_MASK == 0 {
                scan_next_l3_exec(c)
            } else {
                ScanStep::Done {
                    found: Some(((((c.l1 << 30) | (c.l2 << 21)) | (c.l3 << 12)), d & DESC_ADDRESS_MASK)),
                }
            }
        },
    }
}

/// The tables the cursor has descended through are those a walk of its
/// position would use.
pub open spec fn scan_cursor_sound(mem: spec_fn(u64) -> u64, ttbr0: u64, three_level: bool, c: ScanCursor) -> bool {
    &&& scan_cursor_wf(c)
    &&& c.three_level == three_level
    &&& !three_level ==> !(c.level is L1)
    &&& c.l1_table == table_base(ttbr0)
    &&& (c.level is L2 || c.level is L3) ==> if three_level {
        let d = mem(entry_address(c.l1_table, c.l1));
        d & 1 != 0 && d & 2 != 0 && table_base(d) == c.l2_table
    } else {
        c.l2_table == c.l1_table
    }
    &&& c.level is L3 ==> {
        let d = mem(entry_address(c.l2_table, c.l2));
        d & 1 != 0 && d & 2 != 0 && table_base(d) == c.l3_table
    }
}

/// A step whose answer, if any, is a page the walk translates that way.
pub open spec fn scan_step_sound(mem: spec_fn(u64) -> u64, ttbr0: u64, three_level: bool, s: ScanStep) -> bool {
    match s {
        ScanStep::Read { address, cursor } => scan_cursor_sound(mem, ttbr0, three_level, cursor)
            && address == scan_address(cursor),
        ScanStep::Done { found } => match found {
            Some((iova, physical)) => walk(mem, ttbr0, three_level, iova) == Some(physical),
            None => true,
        },
    }
}

proof fn lemma_scan_iova_indices(l1: u64, l2: u64, l3: u64)
    requires
        l1 < 512,
        l2 < 512,
        l3 < 512,
    ensures
        l1_index(scan_iova(l1, l2)) == l1,
        l2_index(scan_iova(l1, l2)) == l2,
        scan_iova(l1, l2) & 0x1f_ffff == 0,
        l1_index(scan_iova(l1, l2) | (l3 << 12u64)) == l1,
        l2_index(scan_iova(l1, l2) | (l3 << 12u64)) == l2,
        l3_index(scan_iova(l1, l2) | (l3 << 12u64)) == l3,
{
    assert((((l1 << 30u64) | (l2 << 21u64)) >> 30u64) & 0x1ff == l1 && (((l1 << 30u64) | (l2
        << 21u64)) >> 21u64) & 0x1ff == l2 && ((l1 << 30u64) | (l2 << 21u64)) & 0x1f_ffff == 0
        && ((((l1 << 30u64) | (l2 << 21u64)) | (l3 << 12u64)) >> 30u64) & 0x1ff == l1 && ((((l1
        << 30u64) | (l2 << 21u64)) | (l3 << 12u64)) >> 21u64) & 0x1ff == l2 && ((((l1 << 30u64)
        | (l2 << 21u64)) | (l3 << 12u64)) >> 12u64) & 0x1ff == l3) by (bit_vector)
        requires
            l1 < 512,
            l2 < 512,
            l3 < 512,
    ;
}

proof fn lemma_scan_next_sound(mem: spec_fn(u64) -> u64, ttbr0: u64, three_level: bool, c: ScanCursor)
    requires
        scan_cursor_sound(mem, ttbr0, three_level, c),
    ensures
        scan_step_sound(mem, ttbr0, three_level, spec_scan_next(c, mem(scan_address(c)))),
{
    let d = mem(scan_address(c));
    lemma_table_base_aligned(d);
    lemma_scan_iova_indices(c.l1, c.l2, c.l3);
    match c.level {
        WalkLevel::L1 => {},
        WalkLevel::L2 => {
            if d & 1 != 0 && d & 2 == 0 {
                let iova = scan_iova(c.l1, c.l2);
                assert((d & DESC_ADDRESS_MASK) | (iova & 0x1f_ffff) == d & DESC_ADDRESS_MASK) by (bit_vector)
                    requires
                        iova & 0x1f_ffff == 0,
                ;
                assert(walk(mem, ttbr0, three_level, iova) == Some(d & DESC_ADDRESS_MASK));
            }
        },
        WalkLevel::L3 => {},
    }
}

/// Drive the scan against memory `mem` for at most `fuel` reads.
pub open spec fn run_scan(mem: spec_fn(u64) -> u64, s: ScanStep, fuel: nat) -> Option<(u64, u64)>
    decreases fuel,
{
    match s {
        ScanStep::Done { found } => found,
        ScanStep::Read { address, cursor } => if fuel == 0 {
            None
        } else {
            run_scan(mem, spec_scan_next(cursor, mem(address)), (fuel - 1) as nat)
        },
    }
}

proof fn lemma_run_scan_sound(mem: spec_fn(u64) -> u64, ttbr0: u64, three_level: bool, s: ScanStep, fuel: nat)
    requires
        scan_step_sound(mem, ttbr0, three_level, s),
    ensures
        run_scan(mem, s, fuel) matches Some((iova, physical)) ==> walk(mem, ttbr0, three_level, iova)
            == Some(physical),
    decreases fuel,
{
    match s {
        ScanStep::Done { .. } => {},
        ScanStep::Read { address, cursor } => {
            if fuel > 0 {
                lemma_scan_next_sound(mem, ttbr0, three_level, cursor);
                lemma_run_scan_sound(mem, ttbr0, three_level, spec_scan_next(cursor, mem(address)), (fuel - 1) as nat);
            }
        },
    }
}

/// Any page the scan adopts is one the context translates that way: the
/// stage-1 walk of the IOVA it reports gives the physical address it
/// reports, however far the scan runs.
pub proof fn lemma_adopted_page_is_mapped(mem: spec_fn(u64) -> u64, ttbr0: u64, three_level: bool, fuel: nat)
    ensures
        run_scan(mem, spec_scan_begin(ttbr0, three_level), fuel) matches Some((iova, physical)) ==> walk(
            mem,
            ttbr0,
            three_level,
            iova,
        ) == Some(physical),
{
    lemma_table_base_aligned(ttbr0);
    assert(0u64 & 0xfff == 0) by (bit_vector);
    lemma_run_scan_sound(mem, ttbr0, three_level, spec_scan_begin(ttbr0, three_level), fuel);
}

} // verus!

verus! {

/// The geometry of an SMMU whose context banks can translate the stream:
/// readable identification and at least one bank.
pub fn context_geometry(id0: u32, id1: u32) -> (g: Option<SmmuGeometry>)
    ensures
        g == if ids_readable(id0, id1) && spec_geometry(id0, id1).num_context_banks != 0 {
            Some(spec_geometry(id0, id1))
        } else {
            None::<SmmuGeometry>
        },
{
    match smmu_geometry(id0, id1) {
        Some(g) => if g.num_context_banks != 0 {
            Some(g)
        } else {
            None
        },
        None => None,
    }
}

/// The page adopted for EP0 DMA: the event-ring IOVA when the walk maps it
/// to a nonzero address, otherwise any page the scan found; refused unless
/// the physical address is nonzero and the IOVA page aligned.
pub open spec fn spec_adoption(iova: u64, walked: Option<u64>, any: Option<(u64, u64)>) -> Option<(u64, u64)> {
    let chosen = match walked {
        Some(p) if p != 0 => Some((iova, p)),
        _ => any,
    };
    match chosen {
        Some((i, p)) => if p == 0 || i % 0x1000 != 0 {
            None
        } else {
            Some((i, p))
        },
        None => None,
    }
}

/// Choose the adopted (IOVA, physical) page.
pub fn adoption(iova: u64, walked: Option<u64>, any: Option<(u64, u64)>) -> (r: Option<(u64, u64)>)
    ensures
        r == spec_adoption(iova, walked, any),
{
    let chosen = match walked {
        Some(p) if p != 0 => Some((iova, p)),
        _ => any,
    };
    match chosen {
        Some((i, p)) => {
            let aligned = i & 0xfff == 0;
            assert(aligned == (i % 0x1000 == 0)) by (bit_vector)
                requires
                    aligned == (i & 0xfff == 0),
            ;
            if p == 0 || !aligned {
                None
            } else {
                Some((i, p))
            }
        },
        None => None,
    }
}

/// An adopted page is always one the live context translates: the walk of
/// the event-ring IOVA, or a page the scan found, gives its physical
/// address.
pub proof fn lemma_adoption_is_mapped(
    mem: spec_fn(u64) -> u64,
    ttbr0: u64,
    three_level: bool,
    iova: u64,
    fuel: nat,
)
    ensures
        spec_adoption(
            iova,
            walk(mem, ttbr0, three_level, iova),
            run_scan(mem, spec_scan_begin(ttbr0, three_level), fuel),
        ) matches Some((i, p)) ==> walk(mem, ttbr0, three_level, i) == Some(p),
{
    lemma_adopted_page_is_mapped(mem, ttbr0, three_level, fuel);
}

} // verus!
