pub mod vec;
