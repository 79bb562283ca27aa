pub mod clock;
pub mod internals;
pub mod peripherals;
