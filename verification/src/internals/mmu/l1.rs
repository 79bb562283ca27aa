use vstd::prelude::*;
use super::Mmu;

verus! {

/// Size of a first-level section: 1 MiB.
pub const PAGE_SIZE: u32 = 0x10_0000;
/// log2 of the section size.
pub const PAGE_SIZE_BITS: u32 = 20;
/// Number of entries of the first-level table.
pub const PAGE_TABLE_SIZE: usize = 4096;
/// Start of the kernel's memory, mapped read-only for user mode.
pub const KERNEL_MEMORY_START: u32 = 0x4020_0000;
/// End of the kernel's memory.
pub const KERNEL_MEMORY_END: u32 = 0x4040_0000;
/// Start of the peripheral memory, mapped with full access.
pub const PERIPHERAL_MEMORY_START: u32 = 0x4400_0000;
/// End of the peripheral memory.
pub const PERIPHERAL_MEMORY_END: u32 = 0x8000_0000;

/// Access permissions of a section (the AP bits of a first-level descriptor).
#[derive(Clone, Copy, PartialEq, Eq, Structural)]
pub enum AccessPermissions {
    Privileged,
    UserReadOnly,
    Full,
}

impl AccessPermissions {
    /// The AP bits, at bit 10 of a section descriptor.
    pub open spec fn bits_spec(self) -> u32 {
        match self {
            AccessPermissions::UserReadOnly => 0b10u32 << 10,
            AccessPermissions::Privileged => 0b01u32 << 10,
            AccessPermissions::Full => 0b11u32 << 10,
        }
    }

    /// The AP bits, at bit 10 of a section descriptor.
    pub fn bits(self) -> (r: u32)
        ensures
            r == self.bits_spec(),
    {
        match self {
            AccessPermissions::UserReadOnly => 0b10u32 << 10,
            AccessPermissions::Privileged => 0b01u32 << 10,
            AccessPermissions::Full => 0b11u32 << 10,
        }
    }
}

/// The first-level translation table: 4096 section or pointer descriptors.
pub struct L1PageTable {
    pub entries: Vec<u32>,
}

impl L1PageTable {
    /// A table of 4096 fault entries.
    pub fn new() -> (t: Self)
        ensures
            t.entries@ == Seq::new(PAGE_TABLE_SIZE as nat, |i: int| 0u32),
    {
        let mut entries: Vec<u32> = Vec::new();
        let mut i: usize = 0;
        while i < PAGE_TABLE_SIZE
            invariant
                i <= PAGE_TABLE_SIZE,
                entries@ == Seq::new(i as nat, |j: int| 0u32),
            decreases PAGE_TABLE_SIZE - i,
        {
            entries.push(0);
            i += 1;
        }
        L1PageTable { entries }
    }
}

/// A section descriptor: maps the 1 MiB at `address` with the given permissions.
pub struct L1SectionPageTableEntry {
    address: u32,
    access_permissions: AccessPermissions,
}

/// The section descriptor word for `address` with permissions `perms`.
pub open spec fn section_descriptor(address: u32, perms: AccessPermissions) -> u32 {
    address | perms.bits_spec() | 0b10
}

/// The ARM access-permission field of a section descriptor for each
/// permission: privileged only is 0b01, user read-only 0b10, full access 0b11.
pub open spec fn ap_encoding(perms: AccessPermissions) -> u32 {
    match perms {
        AccessPermissions::Privileged => 1,
        AccessPermissions::UserReadOnly => 2,
        AccessPermissions::Full => 3,
    }
}

/// A section descriptor for a section-aligned address carries the address
/// in its top twelve bits, the ARM encoding of the permission in its AP field
/// (bits 10 and 11) and the section type 0b10 in its low two bits, so that
/// user tasks may only read a user read-only section, and the three
/// permissions give three different descriptors.
pub proof fn law_section_descriptor_encoding(address: u32, perms: AccessPermissions)
    requires
        address & 0xFFFFF == 0,
    ensures
        (section_descriptor(address, perms) >> 10) & 0b11 == ap_encoding(perms),
        section_descriptor(address, perms) & 0b11 == 0b10,
        section_descriptor(address, perms) & 0xFFF0_0000 == address,
        forall|other: AccessPermissions| other != perms
            ==> section_descriptor(address, other) != #[trigger] section_descriptor(address, perms),
{
    assert forall|p: AccessPermissions| {
        &&& (#[trigger] section_descriptor(address, p) >> 10) & 0b11 == ap_encoding(p)
        &&& section_descriptor(address, p) & 0b11 == 0b10
        &&& section_descriptor(address, p) & 0xFFF0_0000 == address
    } by {
        let e = ap_encoding(p);
        let d = section_descriptor(address, p);
        assert(d == address | (e << 10) | 0b10);
        assert((d >> 10) & 0b11 == e && d & 0b11 == 0b10 && d & 0xFFF0_0000 == address) by (bit_vector)
            requires
                address & 0xFFFFF == 0,
                1 <= e <= 3,
                d == address | (e << 10) | 0b10,
        ;
    }
}

impl L1SectionPageTableEntry {
    /// The mapped address.
    pub closed spec fn address(&self) -> u32 {
        self.address
    }

    /// The access permissions.
    pub closed spec fn access_permissions(&self) -> AccessPermissions {
        self.access_permissions
    }

    /// A section entry for `address` with `access_permissions`.
    pub fn new(address: u32, access_permissions: AccessPermissions) -> (e: Self)
        ensures
            e.address() == address,
            e.access_permissions() == access_permissions,
    {
        L1SectionPageTableEntry { address, access_permissions }
    }

    /// The descriptor word: the address, the AP bits and the section type (0b10).
    pub fn descriptor(&self) -> (r: u32)
        ensures
            r == section_descriptor(self.address(), self.access_permissions()),
    {
        self.address | self.access_permissions.bits() | 0b10
    }
}

/// A pointer descriptor: refers to a second-level table at `table`.
pub struct L1PointerTableEntry {
    table: u32,
}

/// The pointer descriptor word for a second-level table at `table`.
pub open spec fn pointer_descriptor(table: u32) -> u32 {
    table | 0b01
}

impl L1PointerTableEntry {
    /// The address of the second-level table.
    pub closed spec fn table(&self) -> u32 {
        self.table
    }

    /// A pointer entry to the second-level table at `table`.
    pub fn new(table: u32) -> (e: Self)
        ensures
            e.table() == table,
    {
        L1PointerTableEntry { table }
    }

    /// The descriptor word: the table address and the page-table type (0b01).
    pub fn descriptor(&self) -> (r: u32)
        ensures
            r == pointer_descriptor(self.table()),
    {
        self.table | 0b01
    }
}

/// `before` with every 1 MiB section of `start .. end` mapped to itself with `perms`.
pub open spec fn with_range(before: Seq<u32>, start: u32, end: u32, perms: AccessPermissions) -> Seq<u32> {
    Seq::new(
        before.len(),
        |i: int|
            if (start as int) / (PAGE_SIZE as int) <= i < (end as int) / (PAGE_SIZE as int) {
                section_descriptor((i * PAGE_SIZE) as u32, perms)
            } else {
                before[i]
            },
    )
}

/// Maps every 1 MiB section of `start .. end` to itself with `permissions`.
/// Both bounds are section-aligned.
pub fn enable_memory_range(mmu: &mut Mmu, start: u32, end: u32, permissions: AccessPermissions)
    requires
        start % PAGE_SIZE == 0,
        end % PAGE_SIZE == 0,
        start <= end,
    ensures
        final(mmu).level1() == with_range(old(mmu).level1(), start, end, permissions),
        final(mmu).level2() == old(mmu).level2(),
        final(mmu).used_pages() == old(mmu).used_pages(),
        final(mmu).registers() == old(mmu).registers(),
        final(mmu).tlb_log() == old(mmu).tlb_log(),
        final(mmu).level1_address() == old(mmu).level1_address(),
        final(mmu).level2_address() == old(mmu).level2_address(),
{
    proof { mmu.lemma_wf(); }
    let first = start >> PAGE_SIZE_BITS;
    let last = end >> PAGE_SIZE_BITS;
    assert(first == start / 0x10_0000) by (bit_vector) requires first == start >> 20;
    assert(last == end / 0x10_0000) by (bit_vector) requires last == end >> 20;
    assert(last <= 4096) by (bit_vector) requires last == end >> 20;
    let mut index = first;
    while index < last
        invariant
            first <= index <= last,
            last <= 4096,
            first == start / PAGE_SIZE,
            last == end / PAGE_SIZE,
            mmu.level1().len() == 4096,
            old(mmu).level1().len() == 4096,
            forall|i: int|
                0 <= i < 4096 ==> #[trigger] mmu.level1()[i] == if first <= i < index {
                    section_descriptor((i * PAGE_SIZE) as u32, permissions)
                } else {
                    old(mmu).level1()[i]
                },
            mmu.level2() == old(mmu).level2(),
            mmu.used_pages() == old(mmu).used_pages(),
            mmu.registers() == old(mmu).registers(),
            mmu.tlb_log() == old(mmu).tlb_log(),
            mmu.level1_address() == old(mmu).level1_address(),
            mmu.level2_address() == old(mmu).level2_address(),
        decreases last - index,
    {
        let page = index << PAGE_SIZE_BITS;
        assert(page == index * 0x10_0000) by (bit_vector)
            requires
                index < 4096,
                page == index << 20,
        ;
        let section = L1SectionPageTableEntry::new(page, permissions);
        mmu.set_level1(index as usize, section.descriptor());
        index += 1;
    }
    assert(mmu.level1() =~= with_range(old(mmu).level1(), start, end, permissions));
}

/// Maps the kernel's memory read-only for user mode and the peripherals with full access.
pub fn initialize(mmu: &mut Mmu)
    ensures
        final(mmu).level1() == with_range(
            with_range(old(mmu).level1(), KERNEL_MEMORY_START, KERNEL_MEMORY_END, AccessPermissions::UserReadOnly),
            PERIPHERAL_MEMORY_START, PERIPHERAL_MEMORY_END, AccessPermissions::Full),
        final(mmu).level2() == old(mmu).level2(),
        final(mmu).used_pages() == old(mmu).used_pages(),
        final(mmu).registers() == old(mmu).registers(),
        final(mmu).tlb_log() == old(mmu).tlb_log(),
        final(mmu).level1_address() == old(mmu).level1_address(),
        final(mmu).level2_address() == old(mmu).level2_address(),
{
    enable_memory_range(mmu, KERNEL_MEMORY_START, KERNEL_MEMORY_END, AccessPermissions::UserReadOnly);
    enable_memory_range(mmu, PERIPHERAL_MEMORY_START, PERIPHERAL_MEMORY_END, AccessPermissions::Full);
}

} // verus!
