use vstd::prelude::*;
use crate::sys::{RegisterFile, write_addr, CM_PER};

verus! {

/// The timer clock that the system tick uses.
#[derive(Clone, Copy, PartialEq, Eq, Structural)]
pub enum FuncClock {
    Timer2,
}

/// Offset of each clock's control register in the peripheral clock block.
pub open spec fn clock_offset(clock: FuncClock) -> u32 {
    match clock {
        FuncClock::Timer2 => 0x80,
    }
}

/// Switches `clock` on by writing 2 to its control register.
pub fn enable(regs: &mut RegisterFile, clock: FuncClock)
    ensures
        final(regs)@ == old(regs)@.insert((CM_PER + clock_offset(clock)) as u32, 0x2),
{
    let offset: u32 = match clock {
        FuncClock::Timer2 => 0x80,
    };
    write_addr(regs, CM_PER + offset, 0x2);
}

} // verus!
