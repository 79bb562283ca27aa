pub mod internals;
pub mod peripherals;
pub mod pinmux;
pub mod kernel;
