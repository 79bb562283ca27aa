pub mod bblack;
