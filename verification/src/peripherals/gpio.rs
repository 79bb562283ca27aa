use vstd::prelude::*;
use crate::sys::RegisterFile;
use crate::boards::bblack::peripherals::gpio::{bank_register, gpio_initialized, with_bit, Register};
use crate::boards::bblack::peripherals::gpio::{GPIO_DATAIN, GPIO_DATAOUT, GPIO_OE};

pub use crate::boards::bblack::peripherals::gpio::GpioBank;

verus! {

/// Whether a pin drives or senses its line.
#[derive(Clone, Copy, PartialEq, Eq, Structural)]
pub enum GpioMode {
    Input,
    Output,
}

/// A pin: its number within its bank, and the bank.
pub type GpioPin = (u8, GpioBank);

/// What a board's GPIO controllers offer.
pub trait GpioRegister {
    /// Sets the controllers up.
    fn init(&self, regs: &mut RegisterFile);

    /// Makes `pin` an input or an output.
    fn pin_mode(&self, regs: &mut RegisterFile, pin: GpioPin, mode: GpioMode)
        requires
            pin.0 < 32,
    ;

    /// Drives `pin` high or low.
    fn write(&self, regs: &mut RegisterFile, pin: GpioPin, value: bool)
        requires
            pin.0 < 32,
    ;

    /// Whether `pin` reads high.
    fn read(&self, regs: &RegisterFile, pin: GpioPin) -> bool
        requires
            pin.0 < 32,
    ;
}

/// Sets the board's GPIO up: clocks the banks and makes the LED pins outputs.
pub fn init(regs: &mut RegisterFile)
    ensures
        final(regs)@ == gpio_initialized(old(regs)@),
{
    let register = Register::new();
    register.init(regs);
}

/// Makes `pin` an input or an output.
pub fn pin_mode(regs: &mut RegisterFile, pin: GpioPin, mode: GpioMode)
    requires
        pin.0 < 32,
    ensures
        final(regs)@ == with_bit(old(regs)@, bank_register(pin.1, GPIO_OE), pin.0 as u32, mode == GpioMode::Input),
{
    let register = Register::new();
    register.pin_mode(regs, pin, mode);
}

/// Drives `pin` high (`value` true) or low.
pub fn write(regs: &mut RegisterFile, pin: GpioPin, value: bool)
    requires
        pin.0 < 32,
    ensures
        final(regs)@ == with_bit(old(regs)@, bank_register(pin.1, GPIO_DATAOUT), pin.0 as u32, value),
{
    let register = Register::new();
    register.write(regs, pin, value);
}

/// Whether `pin` reads high.
pub fn read(regs: &RegisterFile, pin: GpioPin) -> (high: bool)
    requires
        pin.0 < 32,
    ensures
        high == crate::sys::bit_of(regs@[bank_register(pin.1, GPIO_DATAIN)], pin.0 as u32),
{
    let register = Register::new();
    register.read(regs, pin)
}

} // verus!
