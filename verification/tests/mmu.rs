use fenix::internals::mmu::flat::{setup_level2_page_table, setup_page_tables, L1PageTableEntry, L1PointerTableEntry, L2PageTable, L2PageTableEntry};
use fenix::internals::mmu::{Mmu, L2SmallPageTableEntry};

#[test]
fn flat_descriptors() {
    assert_eq!(L1PageTableEntry::new_section(0).word(), 0xC02);
    assert_eq!(L1PageTableEntry::new_section(0x403).word(), 0x4030_0C02);
    assert_eq!(L1PageTableEntry::Fault.word(), 0);
    assert_eq!(L1PointerTableEntry::new(0x8000_0400).word(), 0x8000_0401);
    assert_eq!(L1PageTableEntry::Pointer(L1PointerTableEntry::new(0x400)).word(), 0x401);
    assert_eq!(L2PageTableEntry::new(0x4030_1000).word(), 0x4030_1032);
}

#[test]
fn flat_tables() {
    let mut mmu = Mmu::new(0x8000_0000, 0x8000_4000);
    setup_page_tables(&mut mmu);
    let mut table = L2PageTable::new();
    setup_level2_page_table(&mut mmu, &mut table, 0x8000_8000);
}

#[test]
fn pages_come_from_the_pool_and_go_back() {
    let mut mmu = Mmu::new(0x8000_0000, 0x8000_4000);
    let a = L2SmallPageTableEntry::try_new(&mut mmu, 0x0, Some(1)).unwrap();
    let b = L2SmallPageTableEntry::try_new(&mut mmu, 0x1000, Some(1)).unwrap();
    assert_eq!(a.descriptor() & !0xFFF, 0x4030_0000);
    assert_eq!(b.descriptor() & !0xFFF, 0x4030_1000);
    assert_eq!(a.start(), 0x0);
    assert_eq!(b.end(), 0x1FFC);
    assert!(mmu.page_used(0) && mmu.page_used(1) && !mmu.page_used(2));
    a.unregister(&mut mmu);
    assert!(!mmu.page_used(0) && mmu.page_used(1));
    let c = L2SmallPageTableEntry::try_new(&mut mmu, 0x2000, None).unwrap();
    assert_eq!(c.descriptor() & !0xFFF, 0x4030_0000);
    assert!(mmu.page_used(0));
}

#[test]
fn pool_runs_out() {
    let mut mmu = Mmu::new(0, 0x4000);
    for _ in 0..256 {
        assert!(L2SmallPageTableEntry::try_new(&mut mmu, 0, None).is_some());
    }
    assert!(L2SmallPageTableEntry::try_new(&mut mmu, 0, None).is_none());
}
