use vstd::prelude::*;
use super::l1::{L1PointerTableEntry, pointer_descriptor};
use super::state::{Mmu, TlbOperation};

verus! {

/// Physical address of the first frame of the page pool.
pub const BASE_ADDRESS: u32 = 0x4030_0000;
/// log2 of the small-page size.
pub const PAGE_SIZE_BITS: u32 = 12;
/// Size of a small page: 4 KiB.
pub const PAGE_SIZE: u32 = 0x1000;
/// Number of entries of the second-level table, and of frames in the pool.
pub const PAGE_TABLE_SIZE: usize = 256;
/// The descriptor of an unmapped (faulting) small page.
pub const L2_FAULT_PAGE_TABLE_ENTRY: u32 = 0x0;

/// Access permissions of a small page (the AP bits of a second-level descriptor).
#[derive(Clone, Copy, PartialEq, Eq, Structural)]
pub enum AccessPermissions {
    Full,
}

impl AccessPermissions {
    /// The AP bits, at bit 4 of a small-page descriptor.
    pub open spec fn bits_spec(self) -> u32 {
        match self {
            AccessPermissions::Full => 0b11u32 << 4,
        }
    }

    /// The AP bits, at bit 4 of a small-page descriptor.
    pub fn bits(&self) -> (r: u32)
        ensures
            r == self.bits_spec(),
    {
        match self {
            AccessPermissions::Full => 0b11u32 << 4,
        }
    }
}

/// A second-level translation table: 256 small-page descriptors.
pub struct L2PageTable {
    pub entries: Vec<u32>,
}

impl L2PageTable {
    /// A table of 256 fault entries.
    pub fn new() -> (t: Self)
        ensures
            t.entries@ == Seq::new(PAGE_TABLE_SIZE as nat, |i: int| 0u32),
    {
        let mut entries: Vec<u32> = Vec::new();
        let mut i: usize = 0;
        while i < PAGE_TABLE_SIZE
            invariant
                i <= PAGE_TABLE_SIZE,
                entries@ == Seq::new(i as nat, |j: int| 0u32),
            decreases PAGE_TABLE_SIZE - i,
        {
            entries.push(0);
            i += 1;
        }
        L2PageTable { entries }
    }
}

/// Sets every second-level entry to fault and points first-level entry 0 at
/// the second-level table.
pub fn initialize(mmu: &mut Mmu)
    ensures
        final(mmu).level2() == Seq::new(256, |i: int| L2_FAULT_PAGE_TABLE_ENTRY),
        final(mmu).level1() == old(mmu).level1().update(0, pointer_descriptor(old(mmu).level2_address())),
        final(mmu).used_pages() == old(mmu).used_pages(),
        final(mmu).level1_address() == old(mmu).level1_address(),
        final(mmu).level2_address() == old(mmu).level2_address(),
        final(mmu).registers() == old(mmu).registers(),
        final(mmu).tlb_log() == old(mmu).tlb_log(),
{
    proof { mmu.lemma_wf(); }
    let l1_pointer = L1PointerTableEntry::new(mmu.level2_table_address());
    let mut i: usize = 0;
    while i < PAGE_TABLE_SIZE
        invariant
            i <= PAGE_TABLE_SIZE,
            mmu.level2().len() == 256,
            forall|j: int| 0 <= j < 256 ==> #[trigger] mmu.level2()[j] == if j < i {
                L2_FAULT_PAGE_TABLE_ENTRY
            } else {
                old(mmu).level2()[j]
            },
            mmu.level1() == old(mmu).level1(),
            mmu.used_pages() == old(mmu).used_pages(),
            mmu.level1_address() == old(mmu).level1_address(),
            mmu.level2_address() == old(mmu).level2_address(),
            mmu.registers() == old(mmu).registers(),
            mmu.tlb_log() == old(mmu).tlb_log(),
        decreases PAGE_TABLE_SIZE - i,
    {
        proof { mmu.lemma_wf(); }
        mmu.set_level2(i, L2_FAULT_PAGE_TABLE_ENTRY);
        i += 1;
    }
    mmu.set_level1(0, l1_pointer.descriptor());
    assert(mmu.level2() =~= Seq::new(256, |i: int| L2_FAULT_PAGE_TABLE_ENTRY));
}

/// A small (4 KiB) page: a frame of the pool mapped at a virtual address, in
/// the address space `asid` (global when there is none).
pub struct L2SmallPageTableEntry {
    asid: Option<u32>,
    virtual_address: u32,
    physical_address: u32,
    permissions: AccessPermissions,
}

/// The small-page descriptor word.
pub open spec fn small_page_descriptor(
    physical_address: u32,
    asid: Option<u32>,
    permissions: AccessPermissions,
) -> u32 {
    physical_address | ((if asid is Some { 1u32 } else { 0u32 }) << 11) | permissions.bits_spec() | 0b10
}

/// A small-page descriptor for a page-aligned frame carries the frame's
/// address in its top twenty bits, the not-global bit (bit 11) exactly when
/// the page belongs to an address space, full access (0b11) in its AP field
/// (bits 4 and 5) and the small-page type 0b10 in its low two bits.
pub proof fn law_small_page_descriptor_encoding(physical_address: u32, asid: Option<u32>)
    requires
        physical_address & 0xFFF == 0,
    ensures
        ({
            let d = small_page_descriptor(physical_address, asid, AccessPermissions::Full);
            &&& d & 0xFFFF_F000 == physical_address
            &&& ((d >> 11) & 1 == 1) == (asid is Some)
            &&& (d >> 4) & 0b11 == 0b11
            &&& d & 0b11 == 0b10
        }),
{
    let d = small_page_descriptor(physical_address, asid, AccessPermissions::Full);
    let g: u32 = if asid is Some { 1 } else { 0 };
    assert(d == physical_address | (g << 11) | (3u32 << 4) | 0b10);
    assert(d & 0xFFFF_F000 == physical_address && ((d >> 11) & 1 == 1) == (g == 1)
        && (d >> 4) & 0b11 == 0b11 && d & 0b11 == 0b10) by (bit_vector)
        requires
            physical_address & 0xFFF == 0,
            g <= 1,
            d == physical_address | (g << 11) | (3u32 << 4) | 0b10,
    ;
}

/// `i` is the first frame that `used` marks free.
pub open spec fn is_first_free(used: Seq<bool>, i: int) -> bool {
    &&& 0 <= i < used.len()
    &&& !used[i]
    &&& forall|j: int| 0 <= j < i ==> #[trigger] used[j]
}

/// The physical address of frame `i` of the pool.
pub open spec fn frame_address(i: int) -> u32 {
    (BASE_ADDRESS + i * PAGE_SIZE) as u32
}

/// The pool frame that holds `physical_address`, if it is a pool address.
pub open spec fn frame_index(physical_address: u32) -> Option<int> {
    if BASE_ADDRESS <= physical_address && ((physical_address - BASE_ADDRESS) as u32 >> 12) < 256 {
        Some(((physical_address - BASE_ADDRESS) as u32 >> 12) as int)
    } else {
        None
    }
}

/// The operand of the TLB invalidation for a page: its page address with the ASID in the low bits.
pub open spec fn tlb_entry_operand(virtual_address: u32, asid: Option<u32>) -> u32 {
    (virtual_address & !0xFFFu32) | match asid {
        Some(a) => a,
        None => 0,
    }
}

impl L2SmallPageTableEntry {
    /// The address space the page belongs to.
    pub closed spec fn asid(&self) -> Option<u32> {
        self.asid
    }

    /// Where the page is mapped.
    pub closed spec fn virtual_address(&self) -> u32 {
        self.virtual_address
    }

    /// The frame behind the page.
    pub closed spec fn physical_address(&self) -> u32 {
        self.physical_address
    }

    /// The access permissions of the page.
    pub closed spec fn permissions(&self) -> AccessPermissions {
        self.permissions
    }

    /// The page's descriptor word.
    pub open spec fn descriptor_spec(&self) -> u32 {
        small_page_descriptor(self.physical_address(), self.asid(), self.permissions())
    }

    /// Takes the first free frame of the pool, marks it used, and makes a page
    /// mapping it at `virtual_address` with full access. Returns `None`, changing
    /// nothing, when every frame is in use.
    pub fn try_new(mmu: &mut Mmu, virtual_address: u32, asid: Option<u32>) -> (r: Option<Self>)
        ensures
            final(mmu).level1() == old(mmu).level1(),
            final(mmu).level2() == old(mmu).level2(),
            final(mmu).level1_address() == old(mmu).level1_address(),
            final(mmu).level2_address() == old(mmu).level2_address(),
            final(mmu).registers() == old(mmu).registers(),
            final(mmu).tlb_log() == old(mmu).tlb_log(),
            match r {
                None => {
                    &&& forall|j: int| 0 <= j < 256 ==> #[trigger] old(mmu).used_pages()[j]
                    &&& final(mmu).used_pages() == old(mmu).used_pages()
                },
                Some(entry) => exists|i: int| {
                    &&& is_first_free(old(mmu).used_pages(), i)
                    &&& final(mmu).used_pages() == old(mmu).used_pages().update(i, true)
                    &&& entry.physical_address() == frame_address(i)
                    &&& entry.virtual_address() == virtual_address
                    &&& entry.asid() == asid
                    &&& entry.permissions() == AccessPermissions::Full
                },
            },
    {
        proof { mmu.lemma_wf(); }
        let mut index: u32 = 0;
        while index < PAGE_TABLE_SIZE as u32
            invariant
                index <= 256,
                mmu.used_pages().len() == 256,
                forall|j: int| 0 <= j < index ==> #[trigger] mmu.used_pages()[j],
                mmu.used_pages() == old(mmu).used_pages(),
                mmu.level1() == old(mmu).level1(),
                mmu.level2() == old(mmu).level2(),
                mmu.level1_address() == old(mmu).level1_address(),
                mmu.level2_address() == old(mmu).level2_address(),
                mmu.registers() == old(mmu).registers(),
                mmu.tlb_log() == old(mmu).tlb_log(),
            decreases 256 - index,
        {
            if !mmu.page_used(index as usize) {
                mmu.set_page_used(index as usize, true);
                let offset = index << PAGE_SIZE_BITS;
                assert(offset == index * 4096) by (bit_vector)
                    requires index < 256, offset == index << 12;
                let entry = L2SmallPageTableEntry {
                    asid,
                    virtual_address: 0,
                    physical_address: BASE_ADDRESS + offset,
                    permissions: AccessPermissions::Full,
                };
                let entry = L2SmallPageTableEntry { virtual_address, ..entry };
                assert(is_first_free(old(mmu).used_pages(), index as int));
                assert(entry.physical_address() == frame_address(index as int));
                assert(mmu.used_pages() == old(mmu).used_pages().update(index as int, true));
                return Some(entry);
            }
            index += 1;
        }
        None
    }

    /// A page with no frame: no ASID, both addresses 0, full access.
    pub fn empty() -> (e: Self)
        ensures
            e.asid() is None,
            e.virtual_address() == 0,
            e.physical_address() == 0,
            e.permissions() == AccessPermissions::Full,
    {
        L2SmallPageTableEntry {
            asid: None,
            virtual_address: 0,
            physical_address: 0,
            permissions: AccessPermissions::Full,
        }
    }

    /// Makes the page's address space the current one (when it has one).
    pub fn set_asid(&self, mmu: &mut Mmu)
        ensures
            final(mmu).registers() == match self.asid() {
                Some(a) => Cp15Update::context(old(mmu).registers(), a),
                None => old(mmu).registers(),
            },
            final(mmu).level1() == old(mmu).level1(),
            final(mmu).level2() == old(mmu).level2(),
            final(mmu).used_pages() == old(mmu).used_pages(),
            final(mmu).level1_address() == old(mmu).level1_address(),
            final(mmu).level2_address() == old(mmu).level2_address(),
            final(mmu).tlb_log() == old(mmu).tlb_log(),
    {
        if let Some(asid) = self.asid {
            let mut registers = mmu.cp15();
            registers.context_id = asid;
            mmu.set_registers(registers);
        }
    }

    /// Issues the TLB invalidation of this page's entry.
    pub fn invalidate_tlb(&self, mmu: &mut Mmu)
        ensures
            final(mmu).tlb_log() == old(mmu).tlb_log().push(
                TlbOperation::Entry(tlb_entry_operand(self.virtual_address(), self.asid())),
            ),
            final(mmu).level1() == old(mmu).level1(),
            final(mmu).level2() == old(mmu).level2(),
            final(mmu).used_pages() == old(mmu).used_pages(),
            final(mmu).level1_address() == old(mmu).level1_address(),
            final(mmu).level2_address() == old(mmu).level2_address(),
            final(mmu).registers() == old(mmu).registers(),
    {
        let asid = match self.asid {
            Some(a) => a,
            None => 0,
        };
        mmu.invalidate(TlbOperation::Entry((self.virtual_address & !0xFFFu32) | asid));
    }

    /// Maps the page: its address space becomes current and its descriptor is
    /// written to the second-level entry of its virtual address.
    pub fn register(&self, mmu: &mut Mmu)
        requires
            self.virtual_address() >> 12 < 256,
        ensures
            final(mmu).level2() == old(mmu).level2().update(
                (self.virtual_address() >> 12) as int,
                self.descriptor_spec(),
            ),
            final(mmu).registers() == match self.asid() {
                Some(a) => Cp15Update::context(old(mmu).registers(), a),
                None => old(mmu).registers(),
            },
            final(mmu).level1() == old(mmu).level1(),
            final(mmu).used_pages() == old(mmu).used_pages(),
            final(mmu).level1_address() == old(mmu).level1_address(),
            final(mmu).level2_address() == old(mmu).level2_address(),
            final(mmu).tlb_log() == old(mmu).tlb_log(),
    {
        self.set_asid(mmu);
        let index = (self.virtual_address >> PAGE_SIZE_BITS) as usize;
        mmu.set_level2(index, self.descriptor());
    }

    /// Unmaps the page: its second-level entry faults again, its frame (when it
    /// is a frame of the pool) is free again, and its TLB entry is invalidated.
    pub fn unregister(&self, mmu: &mut Mmu)
        requires
            self.virtual_address() >> 12 < 256,
        ensures
            final(mmu).level2() == old(mmu).level2().update(
                (self.virtual_address() >> 12) as int,
                L2_FAULT_PAGE_TABLE_ENTRY,
            ),
            final(mmu).used_pages() == match frame_index(self.physical_address()) {
                Some(i) => old(mmu).used_pages().update(i, false),
                None => old(mmu).used_pages(),
            },
            final(mmu).tlb_log() == old(mmu).tlb_log().push(
                TlbOperation::Entry(tlb_entry_operand(self.virtual_address(), self.asid())),
            ),
            final(mmu).level1() == old(mmu).level1(),
            final(mmu).level1_address() == old(mmu).level1_address(),
            final(mmu).level2_address() == old(mmu).level2_address(),
            final(mmu).registers() == old(mmu).registers(),
    {
        let index = (self.virtual_address >> PAGE_SIZE_BITS) as usize;
        mmu.set_level2(index, L2_FAULT_PAGE_TABLE_ENTRY);
        if BASE_ADDRESS <= self.physical_address {
            let frame = (self.physical_address - BASE_ADDRESS) >> PAGE_SIZE_BITS;
            if frame < 256 {
                mmu.set_page_used(frame as usize, false);
            }
        }
        self.invalidate_tlb(mmu);
    }

    /// The physical address of the page's frame.
    pub fn frame(&self) -> (a: u32)
        ensures
            a == self.physical_address(),
    {
        self.physical_address
    }

    /// The first virtual address of the page.
    pub fn start(&self) -> (a: u32)
        ensures
            a == self.virtual_address(),
    {
        self.virtual_address
    }

    /// The last word-aligned virtual address of the page: start + 4 KiB - 4.
    pub fn end(&self) -> (a: u32)
        requires
            self.virtual_address() + PAGE_SIZE <= u32::MAX,
        ensures
            a == self.virtual_address() + PAGE_SIZE - 4,
    {
        self.virtual_address + PAGE_SIZE - 4
    }

    /// The descriptor word: the frame address, the non-global bit (bit 11, set
    /// when the page has an ASID), the AP bits and the small-page type (0b10).
    pub fn descriptor(&self) -> (r: u32)
        ensures
            r == self.descriptor_spec(),
    {
        let non_global: u32 = if self.asid.is_some() { 1 } else { 0 };
        self.physical_address | non_global << 11 | self.permissions.bits() | 0b10
    }
}

/// Updates of the CP15 register block.
pub struct Cp15Update;

impl Cp15Update {
    /// `registers` with the context ID set to `asid`.
    pub open spec fn context(registers: super::state::Cp15, asid: u32) -> super::state::Cp15 {
        super::state::Cp15 { context_id: asid, ..registers }
    }
}

} // verus!
