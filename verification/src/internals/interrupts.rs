use vstd::prelude::*;
use crate::sys::RegisterFile;
use crate::boards::bblack::internals::interrupts::{is_timer_line, INTC, INTC_SIR_IRQ};

pub use crate::boards::bblack::internals::interrupts::Interrupt;

verus! {

/// What a board's interrupt controller offers.
pub trait InterruptRegister {
    /// Enables the line of `interrupt` as an IRQ with `priority`.
    fn enable(&self, regs: &mut RegisterFile, interrupt: Interrupt, priority: u8);

    /// Records `handler` (named by the number the caller gave it) for the line of `interrupt`.
    fn register_handler(&mut self, interrupt: Interrupt, handler: usize);

    /// The active interrupt.
    fn current(&self, regs: &RegisterFile) -> Interrupt
        requires
            is_timer_line(regs@[(INTC + INTC_SIR_IRQ) as u32] & 0x7F),
    ;
}

} // verus!
