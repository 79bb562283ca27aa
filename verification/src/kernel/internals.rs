pub mod tasks;
pub mod sysclock;
