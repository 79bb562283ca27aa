use vstd::prelude::*;
use super::l1::{self, with_range, pointer_descriptor, AccessPermissions, KERNEL_MEMORY_START, KERNEL_MEMORY_END, PERIPHERAL_MEMORY_START, PERIPHERAL_MEMORY_END};
use super::l2::{self, L2_FAULT_PAGE_TABLE_ENTRY};
use super::state::{Cp15, Mmu, TlbOperation};

verus! {

/// Every domain set to "client": accesses are checked against the permissions.
pub const DOMAIN_CLIENTS: u32 = 0x5555_5555;

/// Builds both translation tables, points the MMU at them, flushes the TLB,
/// makes every domain a client and turns the MMU on.
pub fn initialize(mmu: &mut Mmu)
    ensures
        final(mmu).level2() == Seq::new(256, |i: int| L2_FAULT_PAGE_TABLE_ENTRY),
        final(mmu).used_pages() == old(mmu).used_pages(),
        final(mmu).registers() == (Cp15 {
            ttbcr: 0,
            ttbr0: old(mmu).level1_address(),
            dacr: DOMAIN_CLIENTS,
            sctlr: old(mmu).registers().sctlr | 1,
            context_id: old(mmu).registers().context_id,
        }),
        final(mmu).tlb_log() == old(mmu).tlb_log().push(TlbOperation::All),
        final(mmu).level1_address() == old(mmu).level1_address(),
        final(mmu).level2_address() == old(mmu).level2_address(),
        final(mmu).level1() == with_range(
            with_range(
                old(mmu).level1(),
                KERNEL_MEMORY_START,
                KERNEL_MEMORY_END,
                AccessPermissions::UserReadOnly,
            ),
            PERIPHERAL_MEMORY_START,
            PERIPHERAL_MEMORY_END,
            AccessPermissions::Full,
        ).update(0, pointer_descriptor(old(mmu).level2_address())),
{
    l1::initialize(mmu);
    l2::initialize(mmu);
    initialize_ttbcr(mmu);
    initialize_ttbr0(mmu);
    invalidate_tlb(mmu);
    setup_domains(mmu);
    enable_mmu(mmu);
}

/// Translation uses TTBR0 for the whole address space.
pub fn initialize_ttbcr(mmu: &mut Mmu)
    ensures
        final(mmu).registers() == (Cp15 { ttbcr: 0, ..old(mmu).registers() }),
        final(mmu).level1() == old(mmu).level1(),
        final(mmu).level2() == old(mmu).level2(),
        final(mmu).used_pages() == old(mmu).used_pages(),
        final(mmu).level1_address() == old(mmu).level1_address(),
        final(mmu).level2_address() == old(mmu).level2_address(),
        final(mmu).tlb_log() == old(mmu).tlb_log(),
{
    let registers = mmu.cp15();
    mmu.set_registers(Cp15 { ttbcr: 0, ..registers });
}

/// Points TTBR0 at the first-level table.
pub fn initialize_ttbr0(mmu: &mut Mmu)
    ensures
        final(mmu).registers() == (Cp15 { ttbr0: old(mmu).level1_address(), ..old(mmu).registers() }),
        final(mmu).level1() == old(mmu).level1(),
        final(mmu).level2() == old(mmu).level2(),
        final(mmu).used_pages() == old(mmu).used_pages(),
        final(mmu).level1_address() == old(mmu).level1_address(),
        final(mmu).level2_address() == old(mmu).level2_address(),
        final(mmu).tlb_log() == old(mmu).tlb_log(),
{
    let page_table_address = mmu.level1_table_address();
    let registers = mmu.cp15();
    mmu.set_registers(Cp15 { ttbr0: page_table_address, ..registers });
}

/// Invalidates the whole TLB.
pub fn invalidate_tlb(mmu: &mut Mmu)
    ensures
        final(mmu).tlb_log() == old(mmu).tlb_log().push(TlbOperation::All),
        final(mmu).level1() == old(mmu).level1(),
        final(mmu).level2() == old(mmu).level2(),
        final(mmu).used_pages() == old(mmu).used_pages(),
        final(mmu).level1_address() == old(mmu).level1_address(),
        final(mmu).level2_address() == old(mmu).level2_address(),
        final(mmu).registers() == old(mmu).registers(),
{
    mmu.invalidate(TlbOperation::All);
}

/// Makes every domain a client.
pub fn setup_domains(mmu: &mut Mmu)
    ensures
        final(mmu).registers() == (Cp15 { dacr: DOMAIN_CLIENTS, ..old(mmu).registers() }),
        final(mmu).level1() == old(mmu).level1(),
        final(mmu).level2() == old(mmu).level2(),
        final(mmu).used_pages() == old(mmu).used_pages(),
        final(mmu).level1_address() == old(mmu).level1_address(),
        final(mmu).level2_address() == old(mmu).level2_address(),
        final(mmu).tlb_log() == old(mmu).tlb_log(),
{
    let registers = mmu.cp15();
    mmu.set_registers(Cp15 { dacr: DOMAIN_CLIENTS, ..registers });
}

/// Sets the MMU-enable bit of the system control register.
pub fn enable_mmu(mmu: &mut Mmu)
    ensures
        final(mmu).registers() == (Cp15 { sctlr: old(mmu).registers().sctlr | 1, ..old(mmu).registers() }),
        final(mmu).level1() == old(mmu).level1(),
        final(mmu).level2() == old(mmu).level2(),
        final(mmu).used_pages() == old(mmu).used_pages(),
        final(mmu).level1_address() == old(mmu).level1_address(),
        final(mmu).level2_address() == old(mmu).level2_address(),
        final(mmu).tlb_log() == old(mmu).tlb_log(),
{
    let registers = mmu.cp15();
    mmu.set_registers(Cp15 { sctlr: registers.sctlr | 1, ..registers });
}

} // verus!
