pub mod clock;
pub mod mmu;
pub mod clocks;
pub mod interrupts;
pub mod sysclock;
pub mod timer;
