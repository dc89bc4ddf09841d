//! PHY programming tables: the compiled Bramble fallback, their replacement
//! from the bootloader device tree, and the observation codes that report
//! which tables a boot used.

use vstd::prelude::*;
use vstd::string::StringSliceAdditionalSpecFns;
use crate::bytes::{ascii, bytes_equal, literal};

verus! {

/// Number of (offset, value) writes in the QMP initialization table.
pub const QMP_INIT_ENTRIES: usize = 146;
/// Number of cells in the device tree's QMP property: one triple per write
/// plus the terminating sentinel triple.
pub const QMP_DT_CELLS: usize = 441;
/// Number of cells in the device tree's USB2 PHY override property.
pub const HS_DT_CELLS: usize = 6;
/// The qpr1 primary USB2 PHY base.
pub const HSPHY_PRIMARY_BASE: u64 = 0x088e3000;

/// The compiled Bramble QMP initialization table: (register offset, value).
pub open spec fn spec_qmp_init_table() -> Seq<(usize, u32)> {
    seq![
        (0x1010usize, 0x01u32),
        (0x101cusize, 0x31u32),
        (0x1020usize, 0x01u32),
        (0x1024usize, 0xdeu32),
        (0x1028usize, 0x07u32),
        (0x1030usize, 0xdeu32),
        (0x1034usize, 0x07u32),
        (0x1050usize, 0x0au32),
        (0x1060usize, 0x20u32),
        (0x1074usize, 0x06u32),
        (0x1078usize, 0x06u32),
        (0x107cusize, 0x16u32),
        (0x1080usize, 0x16u32),
        (0x1084usize, 0x36u32),
        (0x1088usize, 0x36u32),
        (0x1094usize, 0x1au32),
        (0x10a4usize, 0x04u32),
        (0x10acusize, 0x14u32),
        (0x10b0usize, 0x34u32),
        (0x10b4usize, 0x34u32),
        (0x10b8usize, 0x82u32),
        (0x10bcusize, 0x82u32),
        (0x10c4usize, 0x82u32),
        (0x10ccusize, 0xabu32),
        (0x10d0usize, 0xeau32),
        (0x10d4usize, 0x02u32),
        (0x10d8usize, 0xabu32),
        (0x10dcusize, 0xeau32),
        (0x10e0usize, 0x02u32),
        (0x110cusize, 0x02u32),
        (0x1110usize, 0x24u32),
        (0x1118usize, 0x24u32),
        (0x111cusize, 0x02u32),
        (0x1158usize, 0x01u32),
        (0x116cusize, 0x08u32),
        (0x11acusize, 0xcau32),
        (0x11b0usize, 0x1eu32),
        (0x11b4usize, 0xcau32),
        (0x11b8usize, 0x1eu32),
        (0x11bcusize, 0x11u32),
        (0x1234usize, 0x00u32),
        (0x1238usize, 0x00u32),
        (0x123cusize, 0x16u32),
        (0x1240usize, 0x05u32),
        (0x1284usize, 0x55u32),
        (0x1288usize, 0x02u32),
        (0x1290usize, 0x2au32),
        (0x1294usize, 0x3fu32),
        (0x12a4usize, 0x12u32),
        (0x12e4usize, 0x20u32),
        (0x1414usize, 0x05u32),
        (0x1430usize, 0x2fu32),
        (0x1434usize, 0x7fu32),
        (0x143cusize, 0xffu32),
        (0x1440usize, 0x0fu32),
        (0x1444usize, 0x99u32),
        (0x144cusize, 0x04u32),
        (0x1450usize, 0x08u32),
        (0x1454usize, 0x05u32),
        (0x1458usize, 0x05u32),
        (0x14d4usize, 0x54u32),
        (0x14d8usize, 0x08u32),
        (0x14ecusize, 0x0fu32),
        (0x14f0usize, 0x4au32),
        (0x14f4usize, 0x0au32),
        (0x14f8usize, 0xc0u32),
        (0x14fcusize, 0x00u32),
        (0x1510usize, 0x77u32),
        (0x151cusize, 0x04u32),
        (0x1524usize, 0x0eu32),
        (0x155cusize, 0xbfu32),
        (0x1560usize, 0xbfu32),
        (0x1564usize, 0x3fu32),
        (0x1568usize, 0x7fu32),
        (0x156cusize, 0x94u32),
        (0x1570usize, 0x5bu32),
        (0x1574usize, 0x1bu32),
        (0x1578usize, 0xd2u32),
        (0x157cusize, 0x13u32),
        (0x1580usize, 0xa9u32),
        (0x15a0usize, 0x04u32),
        (0x15a4usize, 0x00u32),
        (0x1460usize, 0xa0u32),
        (0x15a8usize, 0x0cu32),
        (0x14dcusize, 0x00u32),
        (0x15b0usize, 0x10u32),
        (0x1634usize, 0x00u32),
        (0x1638usize, 0x00u32),
        (0x163cusize, 0x16u32),
        (0x1640usize, 0x05u32),
        (0x1684usize, 0x55u32),
        (0x1688usize, 0x02u32),
        (0x1690usize, 0x2au32),
        (0x1694usize, 0x3fu32),
        (0x16a4usize, 0x12u32),
        (0x16e4usize, 0x02u32),
        (0x1814usize, 0x05u32),
        (0x1830usize, 0x2fu32),
        (0x1834usize, 0x7fu32),
        (0x183cusize, 0xffu32),
        (0x1840usize, 0x0fu32),
        (0x1844usize, 0x99u32),
        (0x184cusize, 0x04u32),
        (0x1850usize, 0x08u32),
        (0x1854usize, 0x05u32),
        (0x1858usize, 0x05u32),
        (0x18d4usize, 0x54u32),
        (0x18d8usize, 0x08u32),
        (0x18ecusize, 0x0fu32),
        (0x18f0usize, 0x4au32),
        (0x18f4usize, 0x0au32),
        (0x18f8usize, 0xc0u32),
        (0x18fcusize, 0x00u32),
        (0x1910usize, 0x77u32),
        (0x191cusize, 0x04u32),
        (0x1924usize, 0x0eu32),
        (0x195cusize, 0xbfu32),
        (0x1960usize, 0xbfu32),
        (0x1964usize, 0x3fu32),
        (0x1968usize, 0x7fu32),
        (0x196cusize, 0x94u32),
        (0x1970usize, 0x5bu32),
        (0x1974usize, 0x1bu32),
        (0x1978usize, 0xd2u32),
        (0x197cusize, 0x13u32),
        (0x1980usize, 0xa9u32),
        (0x19a0usize, 0x04u32),
        (0x19a4usize, 0x00u32),
        (0x1860usize, 0xa0u32),
        (0x19a8usize, 0x0cu32),
        (0x18dcusize, 0x00u32),
        (0x19b0usize, 0x10u32),
        (0x1cc4usize, 0xd0u32),
        (0x1cc8usize, 0x07u32),
        (0x1cccusize, 0x20u32),
        (0x1cd8usize, 0x13u32),
        (0x1cdcusize, 0x21u32),
        (0x1d88usize, 0xaau32),
        (0x1db0usize, 0x0fu32),
        (0x1dc0usize, 0x88u32),
        (0x1dc4usize, 0x13u32),
        (0x1dd0usize, 0x0cu32),
        (0x1ddcusize, 0x4bu32),
        (0x1decusize, 0x10u32),
        (0x1f18usize, 0xf8u32),
        (0x1f38usize, 0x07u32),
    ]
}

/// The compiled QMP initialization table.
pub fn qmp_init_table() -> (table: Vec<(usize, u32)>)
    ensures
        table@ == spec_qmp_init_table(),
        table@.len() == QMP_INIT_ENTRIES,
{
    let table = vec![
        (0x1010usize, 0x01u32),
        (0x101cusize, 0x31u32),
        (0x1020usize, 0x01u32),
        (0x1024usize, 0xdeu32),
        (0x1028usize, 0x07u32),
        (0x1030usize, 0xdeu32),
        (0x1034usize, 0x07u32),
        (0x1050usize, 0x0au32),
        (0x1060usize, 0x20u32),
        (0x1074usize, 0x06u32),
        (0x1078usize, 0x06u32),
        (0x107cusize, 0x16u32),
        (0x1080usize, 0x16u32),
        (0x1084usize, 0x36u32),
        (0x1088usize, 0x36u32),
        (0x1094usize, 0x1au32),
        (0x10a4usize, 0x04u32),
        (0x10acusize, 0x14u32),
        (0x10b0usize, 0x34u32),
        (0x10b4usize, 0x34u32),
        (0x10b8usize, 0x82u32),
        (0x10bcusize, 0x82u32),
        (0x10c4usize, 0x82u32),
        (0x10ccusize, 0xabu32),
        (0x10d0usize, 0xeau32),
        (0x10d4usize, 0x02u32),
        (0x10d8usize, 0xabu32),
        (0x10dcusize, 0xeau32),
        (0x10e0usize, 0x02u32),
        (0x110cusize, 0x02u32),
        (0x1110usize, 0x24u32),
        (0x1118usize, 0x24u32),
        (0x111cusize, 0x02u32),
        (0x1158usize, 0x01u32),
        (0x116cusize, 0x08u32),
        (0x11acusize, 0xcau32),
        (0x11b0usize, 0x1eu32),
        (0x11b4usize, 0xcau32),
        (0x11b8usize, 0x1eu32),
        (0x11bcusize, 0x11u32),
        (0x1234usize, 0x00u32),
        (0x1238usize, 0x00u32),
        (0x123cusize, 0x16u32),
        (0x1240usize, 0x05u32),
        (0x1284usize, 0x55u32),
        (0x1288usize, 0x02u32),
        (0x1290usize, 0x2au32),
        (0x1294usize, 0x3fu32),
        (0x12a4usize, 0x12u32),
        (0x12e4usize, 0x20u32),
        (0x1414usize, 0x05u32),
        (0x1430usize, 0x2fu32),
        (0x1434usize, 0x7fu32),
        (0x143cusize, 0xffu32),
        (0x1440usize, 0x0fu32),
        (0x1444usize, 0x99u32),
        (0x144cusize, 0x04u32),
        (0x1450usize, 0x08u32),
        (0x1454usize, 0x05u32),
        (0x1458usize, 0x05u32),
        (0x14d4usize, 0x54u32),
        (0x14d8usize, 0x08u32),
        (0x14ecusize, 0x0fu32),
        (0x14f0usize, 0x4au32),
        (0x14f4usize, 0x0au32),
        (0x14f8usize, 0xc0u32),
        (0x14fcusize, 0x00u32),
        (0x1510usize, 0x77u32),
        (0x151cusize, 0x04u32),
        (0x1524usize, 0x0eu32),
        (0x155cusize, 0xbfu32),
        (0x1560usize, 0xbfu32),
        (0x1564usize, 0x3fu32),
        (0x1568usize, 0x7fu32),
        (0x156cusize, 0x94u32),
        (0x1570usize, 0x5bu32),
        (0x1574usize, 0x1bu32),
        (0x1578usize, 0xd2u32),
        (0x157cusize, 0x13u32),
        (0x1580usize, 0xa9u32),
        (0x15a0usize, 0x04u32),
        (0x15a4usize, 0x00u32),
        (0x1460usize, 0xa0u32),
        (0x15a8usize, 0x0cu32),
        (0x14dcusize, 0x00u32),
        (0x15b0usize, 0x10u32),
        (0x1634usize, 0x00u32),
        (0x1638usize, 0x00u32),
        (0x163cusize, 0x16u32),
        (0x1640usize, 0x05u32),
        (0x1684usize, 0x55u32),
        (0x1688usize, 0x02u32),
        (0x1690usize, 0x2au32),
        (0x1694usize, 0x3fu32),
        (0x16a4usize, 0x12u32),
        (0x16e4usize, 0x02u32),
        (0x1814usize, 0x05u32),
        (0x1830usize, 0x2fu32),
        (0x1834usize, 0x7fu32),
        (0x183cusize, 0xffu32),
        (0x1840usize, 0x0fu32),
        (0x1844usize, 0x99u32),
        (0x184cusize, 0x04u32),
        (0x1850usize, 0x08u32),
        (0x1854usize, 0x05u32),
        (0x1858usize, 0x05u32),
        (0x18d4usize, 0x54u32),
        (0x18d8usize, 0x08u32),
        (0x18ecusize, 0x0fu32),
        (0x18f0usize, 0x4au32),
        (0x18f4usize, 0x0au32),
        (0x18f8usize, 0xc0u32),
        (0x18fcusize, 0x00u32),
        (0x1910usize, 0x77u32),
        (0x191cusize, 0x04u32),
        (0x1924usize, 0x0eu32),
        (0x195cusize, 0xbfu32),
        (0x1960usize, 0xbfu32),
        (0x1964usize, 0x3fu32),
        (0x1968usize, 0x7fu32),
        (0x196cusize, 0x94u32),
        (0x1970usize, 0x5bu32),
        (0x1974usize, 0x1bu32),
        (0x1978usize, 0xd2u32),
        (0x197cusize, 0x13u32),
        (0x1980usize, 0xa9u32),
        (0x19a0usize, 0x04u32),
        (0x19a4usize, 0x00u32),
        (0x1860usize, 0xa0u32),
        (0x19a8usize, 0x0cu32),
        (0x18dcusize, 0x00u32),
        (0x19b0usize, 0x10u32),
        (0x1cc4usize, 0xd0u32),
        (0x1cc8usize, 0x07u32),
        (0x1cccusize, 0x20u32),
        (0x1cd8usize, 0x13u32),
        (0x1cdcusize, 0x21u32),
        (0x1d88usize, 0xaau32),
        (0x1db0usize, 0x0fu32),
        (0x1dc0usize, 0x88u32),
        (0x1dc4usize, 0x13u32),
        (0x1dd0usize, 0x0cu32),
        (0x1ddcusize, 0x4bu32),
        (0x1decusize, 0x10u32),
        (0x1f18usize, 0xf8u32),
        (0x1f38usize, 0x07u32),
    ];
    assert(table@ =~= spec_qmp_init_table());
    table
}

/// The compiled USB2 PHY override: the stock Bramble factory values for
/// TUNE1..TUNE3, stored as (offset, value).
pub open spec fn spec_hsphy_fallback() -> Seq<(usize, u32)> {
    seq![(0x6cusize, 0x63u32), (0x70usize, 0x85u32), (0x74usize, 0x17u32)]
}

/// The active PHY tables and the device-tree observations of this boot.
pub struct PhyTables {
    pub qmp_init: Vec<(usize, u32)>,
    pub qmp_init_delay_us: Vec<u32>,
    pub hsphy_param_override: Vec<(usize, u32)>,
    /// 0 = compiled fallback, 1 = two-entry and 2 = three-entry USB2 override
    /// from the device tree, 3 = the QMP table also from the device tree.
    pub hsphy_table_source: u32,
    pub hs_dt_param_present: bool,
    pub hs_dt_param_length: u32,
    pub hs_dt_param_cells: Vec<Option<u32>>,
    pub hs_dt_node_present: bool,
    pub hs_dt_node_ordinal: u32,
    pub hs_dt_node_reg_base: u64,
}

impl PhyTables {
    /// Table shapes are fixed.
    pub open spec fn wf(&self) -> bool {
        &&& self.qmp_init@.len() == QMP_INIT_ENTRIES
        &&& self.qmp_init_delay_us@.len() == QMP_INIT_ENTRIES
        &&& self.hsphy_param_override@.len() == 3
        &&& self.hs_dt_param_cells@.len() == HS_DT_CELLS
    }

    /// The compiled fallback tables, with nothing observed yet.
    pub fn new() -> (t: Self)
        ensures
            t.wf(),
            t.qmp_init@ == spec_qmp_init_table(),
            forall|i: int| 0 <= i < QMP_INIT_ENTRIES ==> t.qmp_init_delay_us@[i] == 0,
            t.hsphy_param_override@ == spec_hsphy_fallback(),
            t.hsphy_table_source == 0,
            !t.hs_dt_param_present,
            t.hs_dt_param_length == 0,
            forall|i: int| 0 <= i < HS_DT_CELLS ==> t.hs_dt_param_cells@[i] is None,
            !t.hs_dt_node_present,
            t.hs_dt_node_ordinal == 0,
            t.hs_dt_node_reg_base == 0,
    {
        let mut delays: Vec<u32> = Vec::new();
        let mut i: usize = 0;
        while i < QMP_INIT_ENTRIES
            invariant
                i <= QMP_INIT_ENTRIES,
                delays@.len() == i,
                forall|j: int| 0 <= j < i ==> delays@[j] == 0,
            decreases QMP_INIT_ENTRIES - i,
        {
            delays.push(0);
            i += 1;
        }
        let overrides = vec![(0x6cusize, 0x63u32), (0x70usize, 0x85u32), (0x74usize, 0x17u32)];
        assert(overrides@ =~= spec_hsphy_fallback());
        let cells: Vec<Option<u32>> = vec![None, None, None, None, None, None];
        PhyTables {
            qmp_init: qmp_init_table(),
            qmp_init_delay_us: delays,
            hsphy_param_override: overrides,
            hsphy_table_source: 0,
            hs_dt_param_present: false,
            hs_dt_param_length: 0,
            hs_dt_param_cells: cells,
            hs_dt_node_present: false,
            hs_dt_node_ordinal: 0,
            hs_dt_node_reg_base: 0,
        }
    }
}

} // verus!

verus! {

/// The USB2 override offsets a device tree may name: TUNE1, TUNE2, TUNE3.
pub open spec fn is_tune_offset(offset: u32) -> bool {
    offset == 0x6c || offset == 0x70 || offset == 0x74
}

/// A three-entry USB2 override: all six cells present.
pub open spec fn hs_three(hs: Seq<Option<u32>>) -> bool {
    forall|i: int| 0 <= i < 6 ==> (#[trigger] hs[i]) is Some
}

/// A two-entry USB2 override: four cells present and the last two absent.
pub open spec fn hs_two(hs: Seq<Option<u32>>) -> bool {
    &&& forall|i: int| 0 <= i < 4 ==> (#[trigger] hs[i]) is Some
    &&& hs[4] is None
    &&& hs[5] is None
}

/// The value of the `i`-th (value, offset) pair.
pub open spec fn hs_value(hs: Seq<Option<u32>>, i: int) -> u32 {
    hs[2 * i].unwrap()
}

/// The offset of the `i`-th (value, offset) pair.
pub open spec fn hs_offset(hs: Seq<Option<u32>>, i: int) -> u32 {
    hs[2 * i + 1].unwrap()
}

/// The `i`-th pair has a byte value, a TUNE offset, and an offset no earlier
/// pair used.
pub open spec fn hs_pair_ok(hs: Seq<Option<u32>>, i: int) -> bool {
    &&& hs_value(hs, i) <= 0xff
    &&& is_tune_offset(hs_offset(hs, i))
    &&& forall|j: int| 0 <= j < i ==> #[trigger] hs_offset(hs, j) != hs_offset(hs, i)
}

/// Every one of the first `count` pairs is acceptable.
pub open spec fn hs_pairs_valid(hs: Seq<Option<u32>>, count: int) -> bool {
    forall|i: int| 0 <= i < count ==> #[trigger] hs_pair_ok(hs, i)
}

/// The override table built from the first `count` pairs, stored as
/// (offset, value); an unused third slot keeps the skip sentinel.
pub open spec fn hs_entries(hs: Seq<Option<u32>>, count: int) -> Seq<(usize, u32)> {
    Seq::new(
        3,
        |i: int|
            if i < count {
                (hs_offset(hs, i) as usize, hs_value(hs, i))
            } else if i < 2 {
                (0usize, 0u32)
            } else {
                (usize::MAX, 0u32)
            },
    )
}

/// A complete QMP property: every cell present and the sentinel triple
/// `<0xffffffff 0xffffffff 0>` at its end.
pub open spec fn qmp_complete(q: Seq<Option<u32>>) -> bool {
    &&& forall|i: int| 0 <= i < QMP_DT_CELLS ==> (#[trigger] q[i]) is Some
    &&& q[438] == Some(0xffff_ffffu32)
    &&& q[439] == Some(0xffff_ffffu32)
    &&& q[440] == Some(0u32)
}

/// Every QMP triple has an offset inside the PHY window, a byte value and a
/// delay of at most one second.
pub open spec fn qmp_triples_valid(q: Seq<Option<u32>>) -> bool {
    forall|i: int| 0 <= i < QMP_INIT_ENTRIES ==> #[trigger] qmp_triple_ok(q, i)
}

/// The `i`-th QMP triple is acceptable.
pub open spec fn qmp_triple_ok(q: Seq<Option<u32>>, i: int) -> bool {
    &&& q[3 * i].unwrap() <= 0x2fff
    &&& q[3 * i + 1].unwrap() <= 0xff
    &&& q[3 * i + 2].unwrap() <= 1_000_000
}

impl PhyTables {
    /// Validate the USB2 override pairs and build the override table.
    fn hs_valid(hs: &[Option<u32>], count: usize) -> (r: (bool, Vec<(usize, u32)>))
        requires
            hs@.len() == HS_DT_CELLS,
            count == 2 || count == 3,
            forall|i: int| 0 <= i < 2 * count ==> (#[trigger] hs@[i]) is Some,
        ensures
            r.0 == hs_pairs_valid(hs@, count as int),
            r.1@ == hs_entries(hs@, count as int),
    {
        let mut entries: Vec<(usize, u32)> = vec![(0usize, 0u32), (0usize, 0u32), (usize::MAX, 0u32)];
        let mut valid = true;
        let mut index: usize = 0;
        while index < count
            invariant
                hs@.len() == HS_DT_CELLS,
                count == 2 || count == 3,
                forall|i: int| 0 <= i < 2 * count ==> (#[trigger] hs@[i]) is Some,
                index <= count,
                entries@.len() == 3,
                forall|i: int|
                    0 <= i < index ==> #[trigger] entries@[i] == (
                        hs_offset(hs@, i) as usize,
                        hs_value(hs@, i),
                    ),
                forall|i: int|
                    index <= i < 3 ==> #[trigger] entries@[i] == if i < 2 {
                        (0usize, 0u32)
                    } else {
                        (usize::MAX, 0u32)
                    },
                valid == hs_pairs_valid(hs@, index as int),
            decreases count - index,
        {
            assert(hs@[2 * index as int] is Some);
            assert(hs@[2 * index as int + 1] is Some);
            let value = hs[index * 2].unwrap();
            let offset = hs[index * 2 + 1].unwrap();
            let mut fresh = true;
            let mut j: usize = 0;
            while j < index
                invariant
                    index < count,
                    count <= 3,
                    j <= index,
                    entries@.len() == 3,
                    offset == hs_offset(hs@, index as int),
                    forall|i: int|
                        0 <= i < index ==> #[trigger] entries@[i] == (
                            hs_offset(hs@, i) as usize,
                            hs_value(hs@, i),
                        ),
                    fresh == forall|k: int| 0 <= k < j ==> #[trigger] hs_offset(hs@, k) != offset,
                decreases index - j,
            {
                assert(entries@[j as int] == (hs_offset(hs@, j as int) as usize, hs_value(hs@, j as int)));
                if entries[j].0 == offset as usize {
                    fresh = false;
                }
                j += 1;
            }
            let pair_ok = value <= 0xff && (offset == 0x6c || offset == 0x70 || offset == 0x74)
                && fresh;
            assert(pair_ok == hs_pair_ok(hs@, index as int));
            valid = valid && pair_ok;
            entries.set(index, (offset as usize, value));
            index += 1;
            assert(valid == hs_pairs_valid(hs@, index as int)) by {
                if valid {
                    assert forall|i: int| 0 <= i < index implies #[trigger] hs_pair_ok(hs@, i) by {
                        if i < index - 1 {
                            assert(hs_pairs_valid(hs@, (index - 1) as int));
                        }
                    }
                } else if !pair_ok {
                    assert(!hs_pair_ok(hs@, (index - 1) as int));
                } else {
                    assert(!hs_pairs_valid(hs@, (index - 1) as int));
                    let k = choose|k: int| 0 <= k < index - 1 && !#[trigger] hs_pair_ok(hs@, k);
                    assert(!hs_pair_ok(hs@, k));
                }
            }
        }
        assert(entries@ =~= hs_entries(hs@, count as int));
        (valid, entries)
    }
}

} // verus!

verus! {

/// The QMP table a complete property describes: (offset, value) per triple.
pub open spec fn qmp_entries(q: Seq<Option<u32>>) -> Seq<(usize, u32)> {
    Seq::new(QMP_INIT_ENTRIES as nat, |i: int| (q[3 * i].unwrap() as usize, q[3 * i + 1].unwrap()))
}

/// The per-write delays a complete QMP property describes.
pub open spec fn qmp_delays(q: Seq<Option<u32>>) -> Seq<u32> {
    Seq::new(QMP_INIT_ENTRIES as nat, |i: int| q[3 * i + 2].unwrap())
}

/// Whether the USB2 override property is usable as a two- or three-entry
/// table, and which.
pub open spec fn hs_installable(hs: Seq<Option<u32>>) -> bool {
    (hs_three(hs) || hs_two(hs)) && hs_pairs_valid(
        hs,
        if hs_two(hs) {
            2
        } else {
            3
        },
    )
}

/// Whether the QMP property is usable.
pub open spec fn qmp_installable(q: Seq<Option<u32>>) -> bool {
    qmp_complete(q) && qmp_triples_valid(q)
}

impl PhyTables {
    /// Check a QMP property and build its tables.
    fn qmp_tables(q: &[Option<u32>]) -> (r: Option<(Vec<(usize, u32)>, Vec<u32>)>)
        requires
            q@.len() == QMP_DT_CELLS,
        ensures
            match r {
                Some((entries, delays)) => qmp_installable(q@) && entries@ == qmp_entries(q@)
                    && delays@ == qmp_delays(q@),
                None => !qmp_installable(q@),
            },
    {
        let mut i: usize = 0;
        while i < QMP_DT_CELLS
            invariant
                q@.len() == QMP_DT_CELLS,
                i <= QMP_DT_CELLS,
                forall|j: int| 0 <= j < i ==> (#[trigger] q@[j]) is Some,
            decreases QMP_DT_CELLS - i,
        {
            if q[i].is_none() {
                return None;
            }
            i += 1;
        }
        if q[438] != Some(u32::MAX) || q[439] != Some(u32::MAX) || q[440] != Some(0u32) {
            return None;
        }
        let mut entries: Vec<(usize, u32)> = Vec::new();
        let mut delays: Vec<u32> = Vec::new();
        let mut valid = true;
        let mut index: usize = 0;
        while index < QMP_INIT_ENTRIES
            invariant
                q@.len() == QMP_DT_CELLS,
                forall|j: int| 0 <= j < QMP_DT_CELLS ==> (#[trigger] q@[j]) is Some,
                index <= QMP_INIT_ENTRIES,
                entries@ == qmp_entries(q@).subrange(0, index as int),
                delays@ == qmp_delays(q@).subrange(0, index as int),
                valid == forall|i: int| 0 <= i < index ==> #[trigger] qmp_triple_ok(q@, i),
            decreases QMP_INIT_ENTRIES - index,
        {
            let raw = index * 3;
            assert(q@[raw as int] is Some && q@[raw + 1] is Some && q@[raw + 2] is Some);
            let offset = q[raw].unwrap();
            let value = q[raw + 1].unwrap();
            let delay_us = q[raw + 2].unwrap();
            let ok = offset <= 0x2fff && value <= 0xff && delay_us <= 1_000_000;
            assert(ok == qmp_triple_ok(q@, index as int));
            let ghost before = valid;
            valid = valid && ok;
            entries.push((offset as usize, value));
            delays.push(delay_us);
            index += 1;
            assert(valid == forall|i: int| 0 <= i < index ==> #[trigger] qmp_triple_ok(q@, i)) by {
                if !ok {
                    assert(!qmp_triple_ok(q@, (index - 1) as int));
                } else if !before {
                    let k = choose|k: int| 0 <= k < index - 1 && !#[trigger] qmp_triple_ok(q@, k);
                    assert(!qmp_triple_ok(q@, k));
                }
            }
            assert(entries@ =~= qmp_entries(q@).subrange(0, index as int));
            assert(delays@ =~= qmp_delays(q@).subrange(0, index as int));
        }
        assert(entries@ =~= qmp_entries(q@));
        assert(delays@ =~= qmp_delays(q@));
        if valid {
            Some((entries, delays))
        } else {
            None
        }
    }

    /// Install the PHY programming from the bootloader device tree. Each
    /// property is taken as a unit or not at all: a usable USB2 override
    /// replaces the override table, and a usable QMP property replaces the
    /// QMP table and its delays. Returns whether anything was installed.
    pub fn install_dt_phy_sequences(&mut self, hs_raw: &[Option<u32>], qmp_raw: &[Option<u32>]) -> (installed:
        bool)
        requires
            old(self).wf(),
            hs_raw@.len() == HS_DT_CELLS,
            qmp_raw@.len() == QMP_DT_CELLS,
        ensures
            final(self).wf(),
            installed == (hs_installable(hs_raw@) || qmp_installable(qmp_raw@)),
            final(self).hsphy_param_override@ == if hs_installable(hs_raw@) {
                hs_entries(
                    hs_raw@,
                    if hs_two(hs_raw@) {
                        2
                    } else {
                        3
                    },
                )
            } else {
                old(self).hsphy_param_override@
            },
            final(self).qmp_init@ == if qmp_installable(qmp_raw@) {
                qmp_entries(qmp_raw@)
            } else {
                old(self).qmp_init@
            },
            final(self).qmp_init_delay_us@ == if qmp_installable(qmp_raw@) {
                qmp_delays(qmp_raw@)
            } else {
                old(self).qmp_init_delay_us@
            },
            final(self).hsphy_table_source == {
                let hs_source = if hs_installable(hs_raw@) {
                    if hs_two(hs_raw@) {
                        1u32
                    } else {
                        2u32
                    }
                } else {
                    old(self).hsphy_table_source
                };
                if qmp_installable(qmp_raw@) {
                    3
                } else {
                    hs_source
                }
            },
            final(self).hs_dt_param_present == old(self).hs_dt_param_present,
            final(self).hs_dt_param_length == old(self).hs_dt_param_length,
            final(self).hs_dt_param_cells@ == old(self).hs_dt_param_cells@,
            final(self).hs_dt_node_present == old(self).hs_dt_node_present,
            final(self).hs_dt_node_ordinal == old(self).hs_dt_node_ordinal,
            final(self).hs_dt_node_reg_base == old(self).hs_dt_node_reg_base,
    {
        let mut installed = false;
        let mut all_present = true;
        let mut i: usize = 0;
        while i < HS_DT_CELLS
            invariant
                hs_raw@.len() == HS_DT_CELLS,
                i <= HS_DT_CELLS,
                all_present == forall|j: int| 0 <= j < i ==> (#[trigger] hs_raw@[j]) is Some,
            decreases HS_DT_CELLS - i,
        {
            all_present = all_present && hs_raw[i].is_some();
            i += 1;
        }
        let two = hs_raw[0].is_some() && hs_raw[1].is_some() && hs_raw[2].is_some()
            && hs_raw[3].is_some() && hs_raw[4].is_none() && hs_raw[5].is_none();
        assert(two == hs_two(hs_raw@));
        assert(all_present == hs_three(hs_raw@));
        if all_present || two {
            let count: usize = if two {
                2
            } else {
                3
            };
            let (valid, entries) = Self::hs_valid(hs_raw, count);
            if valid {
                self.hsphy_param_override = entries;
                self.hsphy_table_source = if two {
                    1
                } else {
                    2
                };
                installed = true;
            }
        }
        match Self::qmp_tables(qmp_raw) {
            Some((entries, delays)) => {
                self.qmp_init = entries;
                self.qmp_init_delay_us = delays;
                self.hsphy_table_source = 3;
                installed = true;
            },
            None => {},
        }
        installed
    }

    /// Record the device-tree USB2 override property as read, before any
    /// validation: whether it was found and its byte length (absent when the
    /// observation is missing), and its six raw cells.
    pub fn record_hs_dt_param_override_observation(
        &mut self,
        observation: Option<(bool, u32)>,
        cells: &[Option<u32>],
    )
        requires
            old(self).wf(),
            cells@.len() == HS_DT_CELLS,
        ensures
            final(self).wf(),
            final(self).hs_dt_param_present == match observation {
                Some((present, _)) => present,
                None => false,
            },
            final(self).hs_dt_param_length == match observation {
                Some((_, length)) => length,
                None => 0u32,
            },
            final(self).hs_dt_param_cells@ == cells@,
            final(self).qmp_init@ == old(self).qmp_init@,
            final(self).qmp_init_delay_us@ == old(self).qmp_init_delay_us@,
            final(self).hsphy_param_override@ == old(self).hsphy_param_override@,
            final(self).hsphy_table_source == old(self).hsphy_table_source,
            final(self).hs_dt_node_present == old(self).hs_dt_node_present,
            final(self).hs_dt_node_ordinal == old(self).hs_dt_node_ordinal,
            final(self).hs_dt_node_reg_base == old(self).hs_dt_node_reg_base,
    {
        let (present, length) = match observation {
            Some((present, length)) => (present, length),
            None => (false, 0),
        };
        self.hs_dt_param_present = present;
        self.hs_dt_param_length = length;
        self.hs_dt_param_cells = vstd::slice::slice_to_vec(cells);
    }

    /// Record which USB2 PHY node the observation came from: its ordinal
    /// among matching nodes (capped to 32 bits) and its first `reg` base.
    pub fn record_hs_dt_node_identity(&mut self, observation: Option<(usize, Option<u64>)>)
        requires
            old(self).wf(),
        ensures
            final(self).wf(),
            match observation {
                Some((ordinal, reg_base)) => {
                    &&& final(self).hs_dt_node_present
                    &&& final(self).hs_dt_node_ordinal == if ordinal <= u32::MAX {
                        ordinal as u32
                    } else {
                        u32::MAX
                    }
                    &&& final(self).hs_dt_node_reg_base == match reg_base {
                        Some(b) => b,
                        None => 0u64,
                    }
                },
                None => !final(self).hs_dt_node_present && final(self).hs_dt_node_ordinal == 0
                    && final(self).hs_dt_node_reg_base == 0,
            },
            final(self).qmp_init@ == old(self).qmp_init@,
            final(self).qmp_init_delay_us@ == old(self).qmp_init_delay_us@,
            final(self).hsphy_param_override@ == old(self).hsphy_param_override@,
            final(self).hsphy_table_source == old(self).hsphy_table_source,
            final(self).hs_dt_param_present == old(self).hs_dt_param_present,
            final(self).hs_dt_param_length == old(self).hs_dt_param_length,
            final(self).hs_dt_param_cells@ == old(self).hs_dt_param_cells@,
    {
        match observation {
            Some((ordinal, reg_base)) => {
                self.hs_dt_node_present = true;
                self.hs_dt_node_ordinal = if ordinal <= u32::MAX as usize {
                    ordinal as u32
                } else {
                    u32::MAX
                };
                self.hs_dt_node_reg_base = match reg_base {
                    Some(b) => b,
                    None => 0,
                };
            },
            None => {
                self.hs_dt_node_present = false;
                self.hs_dt_node_ordinal = 0;
                self.hs_dt_node_reg_base = 0;
            },
        }
    }

    /// Which table source this boot uses.
    pub fn hsphy_table_source(&self) -> (source: u32)
        ensures
            source == self.hsphy_table_source,
    {
        self.hsphy_table_source
    }
}

} // verus!

verus! {

/// Whether a readout aspect names the given text.
pub open spec fn aspect_is(aspect: &str, name: Seq<char>) -> bool {
    aspect.spec_bytes() == ascii(name)
}

/// The code a (value, offset) pair of the observed override reads as: 1 for
/// the qpr1 base value of its slot, 2 for the known alternate, 3 otherwise.
pub open spec fn pair_code(index: int, value: u32, offset: u32) -> u32 {
    if index == 0 && value == 0x67 && offset == 0x6c {
        1
    } else if index == 1 && value == 0xc8 && offset == 0x70 {
        1
    } else if (index == 0 && value == 0x63 && offset == 0x6c) || (index == 1 && value == 0x85
        && offset == 0x70) {
        2
    } else if index == 2 && value == 0x17 && offset == 0x74 {
        1
    } else {
        3
    }
}

impl PhyTables {
    /// The node-identity readout for one aspect: `ordinal` (capped at 15),
    /// `reg-match` (1 for the primary base, 2 for another, 0 without a node)
    /// and `proof` (1..4 for the primary node with an absent, 8-, 16- or
    /// 24-byte property, 5 for another length, 6 for another ordinal, 7 for
    /// another base, 0 without a node); 0 for any other aspect.
    pub fn hsphy_node_code(&self, aspect: &str) -> (code: u32)
        ensures
            code == if aspect_is(aspect, "ordinal"@) {
                if !self.hs_dt_node_present {
                    0
                } else if self.hs_dt_node_ordinal < 15 {
                    self.hs_dt_node_ordinal
                } else {
                    15
                }
            } else if aspect_is(aspect, "reg-match"@) {
                if !self.hs_dt_node_present {
                    0
                } else if self.hs_dt_node_reg_base == HSPHY_PRIMARY_BASE {
                    1
                } else {
                    2
                }
            } else if aspect_is(aspect, "proof"@) {
                if !self.hs_dt_node_present {
                    0
                } else if self.hs_dt_node_ordinal != 0 {
                    6
                } else if self.hs_dt_node_reg_base != HSPHY_PRIMARY_BASE {
                    7
                } else if !self.hs_dt_param_present {
                    1
                } else if self.hs_dt_param_length == 8 {
                    2
                } else if self.hs_dt_param_length == 16 {
                    3
                } else if self.hs_dt_param_length == 24 {
                    4
                } else {
                    5
                }
            } else {
                0
            },
    {
        proof {
            reveal_strlit("ordinal");
            reveal_strlit("reg-match");
            reveal_strlit("proof");
        }
        let a = aspect.as_bytes();
        if bytes_equal(a, literal("ordinal")) {
            if !self.hs_dt_node_present {
                0
            } else if self.hs_dt_node_ordinal < 15 {
                self.hs_dt_node_ordinal
            } else {
                15
            }
        } else if bytes_equal(a, literal("reg-match")) {
            if !self.hs_dt_node_present {
                0
            } else if self.hs_dt_node_reg_base == HSPHY_PRIMARY_BASE {
                1
            } else {
                2
            }
        } else if bytes_equal(a, literal("proof")) {
            if !self.hs_dt_node_present {
                0
            } else if self.hs_dt_node_ordinal != 0 {
                6
            } else if self.hs_dt_node_reg_base != HSPHY_PRIMARY_BASE {
                7
            } else if !self.hs_dt_param_present {
                1
            } else if self.hs_dt_param_length == 8 {
                2
            } else if self.hs_dt_param_length == 16 {
                3
            } else if self.hs_dt_param_length == 24 {
                4
            } else {
                5
            }
        } else {
            0
        }
    }

    /// The readout for the `i`-th observed (value, offset) pair.
    fn observed_pair_code(&self, index: usize) -> (code: u32)
        requires
            self.wf(),
            index < 3,
        ensures
            code == match (
                self.hs_dt_param_cells@[2 * index as int],
                self.hs_dt_param_cells@[2 * index as int + 1],
            ) {
                (Some(value), Some(offset)) => pair_code(index as int, value, offset),
                _ => 0u32,
            },
    {
        match (self.hs_dt_param_cells[index * 2], self.hs_dt_param_cells[index * 2 + 1]) {
            (Some(value), Some(offset)) => {
                if index == 0 && value == 0x67 && offset == 0x6c {
                    1
                } else if index == 1 && value == 0xc8 && offset == 0x70 {
                    1
                } else if (index == 0 && value == 0x63 && offset == 0x6c) || (index == 1 && value
                    == 0x85 && offset == 0x70) {
                    2
                } else if index == 2 && value == 0x17 && offset == 0x74 {
                    1
                } else {
                    3
                }
            },
            _ => 0,
        }
    }

    /// The property readout for one aspect: `present`; `len` (0 absent, 1..3
    /// for 8, 16 or 24 bytes, 4 otherwise); `pair0`..`pair2` (see
    /// `pair_code`, 0 when the pair is incomplete); 0 for any other aspect.
    pub fn hsphy_prop_code(&self, aspect: &str) -> (code: u32)
        requires
            self.wf(),
        ensures
            code == if aspect_is(aspect, "present"@) {
                if self.hs_dt_param_present {
                    1u32
                } else {
                    0u32
                }
            } else if aspect_is(aspect, "len"@) {
                let length = self.hs_dt_param_length;
                if length == 0 {
                    0u32
                } else if length == 8 || length == 16 || length == 24 {
                    length / 8
                } else {
                    4u32
                }
            } else if aspect_is(aspect, "pair0"@) || aspect_is(aspect, "pair1"@) || aspect_is(
                aspect,
                "pair2"@,
            ) {
                let index: int = if aspect_is(aspect, "pair0"@) {
                    0
                } else if aspect_is(aspect, "pair1"@) {
                    1
                } else {
                    2
                };
                match (
                    self.hs_dt_param_cells@[2 * index],
                    self.hs_dt_param_cells@[2 * index + 1],
                ) {
                    (Some(value), Some(offset)) => pair_code(index, value, offset),
                    _ => 0u32,
                }
            } else {
                0u32
            },
    {
        proof {
            reveal_strlit("present");
            reveal_strlit("len");
            reveal_strlit("pair0");
            reveal_strlit("pair1");
            reveal_strlit("pair2");
        }
        let a = aspect.as_bytes();
        if bytes_equal(a, literal("present")) {
            if self.hs_dt_param_present {
                1
            } else {
                0
            }
        } else if bytes_equal(a, literal("len")) {
            let length = self.hs_dt_param_length;
            if length == 0 {
                0
            } else if length == 8 || length == 16 || length == 24 {
                length / 8
            } else {
                4
            }
        } else if bytes_equal(a, literal("pair0")) {
            self.observed_pair_code(0)
        } else if bytes_equal(a, literal("pair1")) {
            self.observed_pair_code(1)
        } else if bytes_equal(a, literal("pair2")) {
            self.observed_pair_code(2)
        } else {
            0
        }
    }
}

} // verus!
