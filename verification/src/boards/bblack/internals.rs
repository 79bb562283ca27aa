pub mod interrupts;
pub mod timer;
