use vstd::prelude::*;

verus! {

/// The four GPIO controllers of the board.
#[derive(Clone, Copy, PartialEq, Eq, Structural)]
pub enum GpioBank {
    Gpio0,
    Gpio1,
    Gpio2,
    Gpio3,
}

/// A pin: its number within its bank, and the bank.
pub type GpioPin = (u32, GpioBank);

/// Base address of each GPIO controller.
pub open spec fn bank_address(bank: GpioBank) -> u32 {
    match bank {
        GpioBank::Gpio0 => 0x44E0_7000,
        GpioBank::Gpio1 => 0x4804_C000,
        GpioBank::Gpio2 => 0x481A_C000,
        GpioBank::Gpio3 => 0x481A_E000,
    }
}

/// Whether `value` is the base address of a GPIO controller.
pub open spec fn is_bank_address(value: u32) -> bool {
    value == 0x44E0_7000 || value == 0x4804_C000 || value == 0x481A_C000 || value == 0x481A_E000
}

impl GpioBank {
    /// The controller's base address.
    pub fn address(&self) -> (a: u32)
        ensures
            a == bank_address(*self),
            is_bank_address(a),
    {
        match self {
            GpioBank::Gpio0 => 0x44E0_7000,
            GpioBank::Gpio1 => 0x4804_C000,
            GpioBank::Gpio2 => 0x481A_C000,
            GpioBank::Gpio3 => 0x481A_E000,
        }
    }

    /// The controller whose base address is `value`.
    pub fn from_address(value: u32) -> (bank: Self)
        requires
            is_bank_address(value),
        ensures
            bank_address(bank) == value,
    {
        match value {
            0x44E0_7000 => GpioBank::Gpio0,
            0x4804_C000 => GpioBank::Gpio1,
            0x481A_C000 => GpioBank::Gpio2,
            _ => GpioBank::Gpio3,
        }
    }
}

/// A bank's base address names the bank: distinct banks have distinct addresses.
pub proof fn lemma_bank_address_injective(a: GpioBank, b: GpioBank)
    ensures
        bank_address(a) == bank_address(b) ==> a == b,
{
}

} // verus!
