pub mod gpio;
pub mod i2c;
pub mod interrupts;
pub mod kernel;
pub mod memory;
pub mod sync;
