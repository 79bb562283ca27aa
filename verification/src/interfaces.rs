pub mod gpio;
