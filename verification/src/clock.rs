use vstd::prelude::*;
use crate::sys::{RegisterFile, read_addr, write_addr};

verus! {

/// The idle-status field of a clock-control register: 0 once the module is
/// fully functional.
pub const IDLEST_BITS: u32 = 0x3 << 16;

/// The peripheral clock block.
pub const CM_PER_BASE: u32 = 0x44E0_0000;

/// The functional clocks this layer switches on.
#[derive(Clone, Copy, PartialEq, Eq, Structural)]
pub enum FunctionalClock {
    Gpio1,
}

/// The address of each clock's control register.
pub open spec fn control_register(clock: FunctionalClock) -> u32 {
    match clock {
        FunctionalClock::Gpio1 => (CM_PER_BASE + 0xAC) as u32,
    }
}

impl FunctionalClock {
    /// The address of the clock's control register.
    pub fn register(&self) -> (a: u32)
        ensures
            a == control_register(*self),
    {
        match self {
            FunctionalClock::Gpio1 => CM_PER_BASE + 0xAC,
        }
    }

    /// Switches the clock on and waits until the module reports itself
    /// functional (its idle-status field reads 0).
    pub fn enable(&self, regs: &mut RegisterFile)
        ensures
            final(regs)@ == old(regs)@.insert(control_register(*self), 0x2),
            final(regs)@[control_register(*self)] & IDLEST_BITS == 0,
    {
        let address = self.register();
        write_addr(regs, address, 0x2);
        assert(0x2u32 & (0x3u32 << 16) == 0) by (bit_vector);
        while read_addr(regs, address) & IDLEST_BITS != 0
            invariant
                regs@[address] == 0x2,
            decreases 0int,
        {
            assert(0x2u32 & (0x3u32 << 16) == 0) by (bit_vector);
        }
    }
}

/// Switches `clock` on and waits until it is functional.
pub fn enable(regs: &mut RegisterFile, clock: FunctionalClock)
    ensures
        final(regs)@ == old(regs)@.insert(control_register(clock), 0x2),
{
    clock.enable(regs);
}

} // verus!
