use vstd::prelude::*;
use crate::internals::mmu::state::Mmu;

verus! {

/// Base of the 1 MiB region that a second-level table maps page by page.
pub const LEVEL2_BASE_ADDRESS: u32 = 0x4030_0000;

/// Access permissions of a mapping.
#[derive(Clone, Copy, PartialEq, Eq, Structural)]
pub enum AccessPermissions {
    /// Read and write, privileged and user.
    Full,
}

/// A first-level entry mapping one 1 MiB section.
#[derive(Clone, Copy, PartialEq, Eq, Structural)]
pub struct L1SectionPageTableEntry {
    /// The section number: the top 12 bits of the addresses it maps.
    pub index: u32,
    pub access_permissions: AccessPermissions,
}

/// A first-level entry pointing at a second-level table.
#[derive(Clone, Copy, PartialEq, Eq, Structural)]
pub struct L1PointerTableEntry {
    /// The address of the second-level table.
    pub table: u32,
}

/// A first-level entry.
#[derive(Clone, Copy, PartialEq, Eq, Structural)]
pub enum L1PageTableEntry {
    Fault,
    Section(L1SectionPageTableEntry),
    Pointer(L1PointerTableEntry),
}

/// A second-level entry mapping one 4 KiB page.
#[derive(Clone, Copy, PartialEq, Eq, Structural)]
pub struct L2PageTableEntry {
    /// The page's physical address.
    pub address: u32,
    pub permissions: AccessPermissions,
}

/// The descriptor of a full-access section: the section base, AP = 0b11 at
/// bits 10-11, type 0b10.
pub open spec fn section_word(index: u32) -> u32 {
    (index << 20) | (0b11u32 << 10) | 0b10u32
}

/// The descriptor of a pointer to the second-level table at `table`: type 0b01.
pub open spec fn pointer_word(table: u32) -> u32 {
    table | 0b01u32
}

/// The descriptor of a full-access small page: the page address, AP = 0b11 at
/// bits 4-5, type 0b10.
pub open spec fn page_word(address: u32) -> u32 {
    address | (0b11u32 << 4) | 0b10u32
}

/// The descriptor of a first-level entry.
pub open spec fn l1_word(entry: L1PageTableEntry) -> u32 {
    match entry {
        L1PageTableEntry::Fault => 0,
        L1PageTableEntry::Section(section) => section_word(section.index),
        L1PageTableEntry::Pointer(pointer) => pointer_word(pointer.table),
    }
}

impl L1SectionPageTableEntry {
    /// The entry's descriptor.
    pub fn word(&self) -> (w: u32)
        ensures
            w == section_word(self.index),
    {
        let permissions: u32 = match self.access_permissions {
            AccessPermissions::Full => 0b11u32 << 10,
        };
        (self.index << 20) | permissions | 0b10
    }
}

impl L1PointerTableEntry {
    /// An entry pointing at the second-level table at `table`.
    pub fn new(table: u32) -> (e: Self)
        ensures
            e.table == table,
    {
        L1PointerTableEntry { table }
    }

    /// The entry's descriptor.
    pub fn word(&self) -> (w: u32)
        ensures
            w == pointer_word(self.table),
    {
        self.table | 0b01
    }
}

impl L1PageTableEntry {
    /// A full-access entry for section `index`.
    pub fn new_section(index: u32) -> (e: Self)
        ensures
            e == L1PageTableEntry::Section(
                L1SectionPageTableEntry { index, access_permissions: AccessPermissions::Full },
            ),
    {
        L1PageTableEntry::Section(L1SectionPageTableEntry { index, access_permissions: AccessPermissions::Full })
    }

    /// The entry's descriptor (0 for a fault).
    pub fn word(&self) -> (w: u32)
        ensures
            w == l1_word(*self),
    {
        match self {
            L1PageTableEntry::Fault => 0,
            L1PageTableEntry::Section(section) => section.word(),
            L1PageTableEntry::Pointer(pointer) => pointer.word(),
        }
    }
}

impl L2PageTableEntry {
    /// A full-access entry for the page at `address`.
    pub fn new(address: u32) -> (e: Self)
        ensures
            e == (L2PageTableEntry { address, permissions: AccessPermissions::Full }),
    {
        L2PageTableEntry { address, permissions: AccessPermissions::Full }
    }

    /// The entry's descriptor.
    pub fn word(&self) -> (w: u32)
        ensures
            w == page_word(self.address),
    {
        let permissions: u32 = match self.permissions {
            AccessPermissions::Full => 0b11u32 << 4,
        };
        self.address | permissions | 0b10
    }
}

/// A second-level table of 1024 small-page descriptors.
pub struct L2PageTable {
    entries: [u32; 1024],
}

impl L2PageTable {
    /// The descriptors.
    pub closed spec fn entries(&self) -> Seq<u32> {
        self.entries@
    }

    /// A table of faulting entries.
    pub fn new() -> (t: Self)
        ensures
            t.entries() == Seq::new(1024, |i: int| 0u32),
    {
        let entries = [0u32; 1024];
        assert(entries@ =~= Seq::new(1024, |i: int| 0u32));
        L2PageTable { entries }
    }
}

/// Maps the whole address space flat: section `i` to the addresses `i << 20`.
pub fn setup_page_tables(mmu: &mut Mmu)
    ensures
        final(mmu).level1() == Seq::new(4096, |i: int| section_word(i as u32)),
        final(mmu).level2() == old(mmu).level2(),
        final(mmu).used_pages() == old(mmu).used_pages(),
        final(mmu).registers() == old(mmu).registers(),
        final(mmu).tlb_log() == old(mmu).tlb_log(),
{
    proof {
        mmu.lemma_wf();
    }
    let ghost start = *mmu;
    let mut i: u32 = 0;
    while i < 4096
        invariant
            i <= 4096,
            mmu.level1().len() == 4096,
            forall|k: int| 0 <= k < i ==> #[trigger] mmu.level1()[k] == section_word(k as u32),
            mmu.level2() == start.level2(),
            mmu.used_pages() == start.used_pages(),
            mmu.registers() == start.registers(),
            mmu.tlb_log() == start.tlb_log(),
        decreases 4096 - i,
    {
        let section = L1PageTableEntry::new_section(i);
        let word = section.word();
        mmu.set_level1(i as usize, word);
        i = i + 1;
    }
    assert(mmu.level1() =~= Seq::new(4096, |i: int| section_word(i as u32)));
}

/// Fills `table` to map the 4 MiB from `LEVEL2_BASE_ADDRESS` page by page,
/// and points the first-level entry of that region at it (the table lying at
/// `table_address`).
pub fn setup_level2_page_table(mmu: &mut Mmu, table: &mut L2PageTable, table_address: u32)
    ensures
        final(table).entries() == Seq::new(
            1024,
            |i: int| page_word(LEVEL2_BASE_ADDRESS | ((i as u32) << 12)),
        ),
        final(mmu).level1() == old(mmu).level1().update(
            (LEVEL2_BASE_ADDRESS >> 20) as int,
            pointer_word(table_address),
        ),
        final(mmu).level2() == old(mmu).level2(),
        final(mmu).used_pages() == old(mmu).used_pages(),
        final(mmu).registers() == old(mmu).registers(),
        final(mmu).tlb_log() == old(mmu).tlb_log(),
{
    let pointer = L1PointerTableEntry::new(table_address);
    let mut i: u32 = 0;
    while i < 1024
        invariant
            i <= 1024,
            table.entries().len() == 1024,
            forall|k: int| 0 <= k < i ==> #[trigger] table.entries()[k] == page_word(
                LEVEL2_BASE_ADDRESS | ((k as u32) << 12),
            ),
        decreases 1024 - i,
    {
        let entry = L2PageTableEntry::new(LEVEL2_BASE_ADDRESS | (i << 12));
        table.entries[i as usize] = entry.word();
        i = i + 1;
    }
    assert(table.entries() =~= Seq::new(1024, |i: int| page_word(LEVEL2_BASE_ADDRESS | ((i as u32) << 12))));
    proof {
        mmu.lemma_wf();
    }
    let index = LEVEL2_BASE_ADDRESS >> 20;
    assert(index == 0x403) by (bit_vector) requires index == 0x4030_0000u32 >> 20;
    mmu.set_level1(index as usize, L1PageTableEntry::Pointer(pointer).word());
}

} // verus!
