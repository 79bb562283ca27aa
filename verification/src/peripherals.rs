pub mod gpio;
pub mod i2c;
