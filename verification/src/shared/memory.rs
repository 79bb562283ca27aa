pub mod heap;
