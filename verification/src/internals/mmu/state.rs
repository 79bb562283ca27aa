use vstd::prelude::*;

verus! {

/// The system-control (CP15) registers that the memory setup writes.
#[derive(Clone, Copy, PartialEq, Eq, Structural)]
pub struct Cp15 {
    /// Translation table base control.
    pub ttbcr: u32,
    /// Translation table base 0: the address of the first-level table.
    pub ttbr0: u32,
    /// Domain access control.
    pub dacr: u32,
    /// System control; bit 0 enables the MMU.
    pub sctlr: u32,
    /// Context ID: the address-space identifier of the running task.
    pub context_id: u32,
}

/// A TLB maintenance operation that was issued.
#[derive(Clone, Copy, PartialEq, Eq, Structural)]
pub enum TlbOperation {
    /// Invalidate the whole TLB.
    All,
    /// Invalidate the entry for this modified virtual address (page address | ASID).
    Entry(u32),
}

/// The memory-management state of the board: both translation tables, the
/// second-level page pool, the CP15 registers and the TLB operations issued.
pub struct Mmu {
    level1: [u32; 4096],
    level2: [u32; 256],
    used_pages: [bool; 256],
    level1_address: u32,
    level2_address: u32,
    cp15: Cp15,
    tlb_log: Vec<TlbOperation>,
}

impl Mmu {
    /// The first-level table.
    pub closed spec fn level1(&self) -> Seq<u32> {
        self.level1@
    }

    /// The second-level table.
    pub closed spec fn level2(&self) -> Seq<u32> {
        self.level2@
    }

    /// Which 4 KiB frames of the page pool are handed out.
    pub closed spec fn used_pages(&self) -> Seq<bool> {
        self.used_pages@
    }

    /// Where the first-level table lies in memory.
    pub closed spec fn level1_address(&self) -> u32 {
        self.level1_address
    }

    /// Where the second-level table lies in memory.
    pub closed spec fn level2_address(&self) -> u32 {
        self.level2_address
    }

    /// The CP15 registers.
    pub closed spec fn registers(&self) -> Cp15 {
        self.cp15
    }

    /// The TLB operations issued so far, oldest first.
    pub closed spec fn tlb_log(&self) -> Seq<TlbOperation> {
        self.tlb_log@
    }

    /// The table sizes every `Mmu` has.
    pub proof fn lemma_wf(&self)
        ensures
            self.level1().len() == 4096,
            self.level2().len() == 256,
            self.used_pages().len() == 256,
    {
    }

    /// An MMU whose tables lie at the given addresses, all entries faulting,
    /// no frame handed out, and the CP15 registers zero.
    pub fn new(level1_address: u32, level2_address: u32) -> (m: Self)
        ensures
            m.level1() == Seq::new(4096, |i: int| 0u32),
            m.level2() == Seq::new(256, |i: int| 0u32),
            m.used_pages() == Seq::new(256, |i: int| false),
            m.level1_address() == level1_address,
            m.level2_address() == level2_address,
            m.registers() == (Cp15 { ttbcr: 0, ttbr0: 0, dacr: 0, sctlr: 0, context_id: 0 }),
            m.tlb_log() == Seq::<TlbOperation>::empty(),
    {
        let level1 = [0u32; 4096];
        let level2 = [0u32; 256];
        let used_pages = [false; 256];
        assert(level1@ =~= Seq::new(4096, |i: int| 0u32));
        assert(level2@ =~= Seq::new(256, |i: int| 0u32));
        assert(used_pages@ =~= Seq::new(256, |i: int| false));
        Mmu {
            level1,
            level2,
            used_pages,
            level1_address,
            level2_address,
            cp15: Cp15 { ttbcr: 0, ttbr0: 0, dacr: 0, sctlr: 0, context_id: 0 },
            tlb_log: Vec::new(),
        }
    }

    /// Where the second-level table lies in memory.
    pub fn level2_table_address(&self) -> (a: u32)
        ensures
            a == self.level2_address(),
    {
        self.level2_address
    }

    /// Where the first-level table lies in memory.
    pub fn level1_table_address(&self) -> (a: u32)
        ensures
            a == self.level1_address(),
    {
        self.level1_address
    }

    /// Writes entry `index` of the first-level table.
    pub fn set_level1(&mut self, index: usize, value: u32)
        requires
            index < 4096,
        ensures
            final(self).level1() == old(self).level1().update(index as int, value),
            final(self).level2() == old(self).level2(),
            final(self).used_pages() == old(self).used_pages(),
            final(self).level1_address() == old(self).level1_address(),
            final(self).level2_address() == old(self).level2_address(),
            final(self).registers() == old(self).registers(),
            final(self).tlb_log() == old(self).tlb_log(),
    {
        self.level1[index] = value;
    }

    /// Writes entry `index` of the second-level table.
    pub fn set_level2(&mut self, index: usize, value: u32)
        requires
            index < 256,
        ensures
            final(self).level2() == old(self).level2().update(index as int, value),
            final(self).level1() == old(self).level1(),
            final(self).used_pages() == old(self).used_pages(),
            final(self).level1_address() == old(self).level1_address(),
            final(self).level2_address() == old(self).level2_address(),
            final(self).registers() == old(self).registers(),
            final(self).tlb_log() == old(self).tlb_log(),
    {
        self.level2[index] = value;
    }

    /// Whether frame `index` of the page pool is handed out.
    pub fn page_used(&self, index: usize) -> (used: bool)
        requires
            index < 256,
        ensures
            used == self.used_pages()[index as int],
    {
        self.used_pages[index]
    }

    /// Marks frame `index` of the page pool as handed out or free.
    pub fn set_page_used(&mut self, index: usize, used: bool)
        requires
            index < 256,
        ensures
            final(self).used_pages() == old(self).used_pages().update(index as int, used),
            final(self).level1() == old(self).level1(),
            final(self).level2() == old(self).level2(),
            final(self).level1_address() == old(self).level1_address(),
            final(self).level2_address() == old(self).level2_address(),
            final(self).registers() == old(self).registers(),
            final(self).tlb_log() == old(self).tlb_log(),
    {
        self.used_pages[index] = used;
    }

    /// Replaces the CP15 registers.
    pub fn set_registers(&mut self, registers: Cp15)
        ensures
            final(self).registers() == registers,
            final(self).level1() == old(self).level1(),
            final(self).level2() == old(self).level2(),
            final(self).used_pages() == old(self).used_pages(),
            final(self).level1_address() == old(self).level1_address(),
            final(self).level2_address() == old(self).level2_address(),
            final(self).tlb_log() == old(self).tlb_log(),
    {
        self.cp15 = registers;
    }

    /// The CP15 registers.
    pub fn cp15(&self) -> (r: Cp15)
        ensures
            r == self.registers(),
    {
        self.cp15
    }

    /// Issues a TLB maintenance operation.
    pub fn invalidate(&mut self, operation: TlbOperation)
        ensures
            final(self).tlb_log() == old(self).tlb_log().push(operation),
            final(self).level1() == old(self).level1(),
            final(self).level2() == old(self).level2(),
            final(self).used_pages() == old(self).used_pages(),
            final(self).level1_address() == old(self).level1_address(),
            final(self).level2_address() == old(self).level2_address(),
            final(self).registers() == old(self).registers(),
    {
        self.tlb_log.push(operation);
    }
}

} // verus!
