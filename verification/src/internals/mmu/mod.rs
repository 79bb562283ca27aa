pub mod flat;
pub mod frames;
pub mod l1;
pub mod l2;
pub mod setup;
pub mod state;

pub use l2::L2SmallPageTableEntry;
pub use setup::initialize;
pub use state::{Cp15, Mmu, TlbOperation};
