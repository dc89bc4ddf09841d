use fullerene_usb::phy_tables::{PhyTables, QMP_DT_CELLS};

fn qmp_property() -> Vec<Option<u32>> {
    let mut cells = Vec::new();
    for i in 0..146u32 {
        cells.push(Some(0x1000 + 4 * i));
        cells.push(Some(i & 0xff));
        cells.push(Some(0));
    }
    cells.push(Some(u32::MAX));
    cells.push(Some(u32::MAX));
    cells.push(Some(0));
    assert_eq!(cells.len(), QMP_DT_CELLS);
    cells
}

#[test]
fn dt_qmp_table_records_source_three() {
    let mut t = PhyTables::new();
    let hs = [Some(0x67), Some(0x6c), Some(0xc8), Some(0x70), Some(0x17), Some(0x74)];
    assert!(t.install_dt_phy_sequences(&hs, &qmp_property()));
    assert_eq!(t.hsphy_table_source(), 3);
    assert_eq!(t.qmp_init[1], (0x1004, 1));
}

#[test]
fn dt_hs_override_sources() {
    let mut t = PhyTables::new();
    let no_qmp = vec![None; QMP_DT_CELLS];
    let hs3 = [Some(0x67), Some(0x6c), Some(0xc8), Some(0x70), Some(0x17), Some(0x74)];
    assert!(t.install_dt_phy_sequences(&hs3, &no_qmp));
    assert_eq!(t.hsphy_table_source(), 2);
    let mut t = PhyTables::new();
    let hs2 = [Some(0x67), Some(0x6c), Some(0xc8), Some(0x70), None, None];
    assert!(t.install_dt_phy_sequences(&hs2, &no_qmp));
    assert_eq!(t.hsphy_table_source(), 1);
    let mut t = PhyTables::new();
    assert!(!t.install_dt_phy_sequences(&[None; 6], &no_qmp));
    assert_eq!(t.hsphy_table_source(), 0);
}
