pub mod scheduler;
pub mod task;
