use vstd::prelude::*;
use crate::sys::RegisterFile;
use crate::utils::{rbit, wbit, wreg};
use crate::boards::bblack::clock::{CLOCK_ENABLE, FuncClock};
use crate::peripherals::gpio::{GpioMode, GpioPin, GpioRegister};

verus! {

/// Offset of a bank's output-enable register (a set bit makes the pin an input).
pub const GPIO_OE: u32 = 0x134;
/// Offset of a bank's input register.
pub const GPIO_DATAIN: u32 = 0x138;
/// Offset of a bank's output register.
pub const GPIO_DATAOUT: u32 = 0x13C;

/// The four GPIO banks of the board.
#[derive(Clone, Copy, PartialEq, Eq, Structural)]
pub enum GpioBank {
    Bank0,
    Bank1,
    Bank2,
    Bank3,
}

/// Base address of each bank.
pub open spec fn bank_base(bank: GpioBank) -> u32 {
    match bank {
        GpioBank::Bank0 => 0x44E0_7000,
        GpioBank::Bank1 => 0x4804_C000,
        GpioBank::Bank2 => 0x481A_C000,
        GpioBank::Bank3 => 0x481A_E000,
    }
}

impl GpioBank {
    /// Base address of the bank.
    pub fn address(&self) -> (a: u32)
        ensures
            a == bank_base(*self),
    {
        match self {
            GpioBank::Bank0 => 0x44E0_7000,
            GpioBank::Bank1 => 0x4804_C000,
            GpioBank::Bank2 => 0x481A_C000,
            GpioBank::Bank3 => 0x481A_E000,
        }
    }
}

/// The register of `bank` at `offset`.
pub open spec fn bank_register(bank: GpioBank, offset: u32) -> u32 {
    (bank_base(bank) + offset) as u32
}

/// `m` with bit `bit` of the register at `address` set to `value`.
pub open spec fn with_bit(m: Map<u32, u32>, address: u32, bit: u32, value: bool) -> Map<u32, u32> {
    m.insert(
        address,
        if value {
            m[address] | (1u32 << bit)
        } else {
            m[address] & !(1u32 << bit)
        },
    )
}

/// The registers after pins `first..=last` of bank 1 were made outputs, one after the other.
pub open spec fn outputs_from(m: Map<u32, u32>, first: u32, last: u32) -> Map<u32, u32>
    decreases last + 1 - first,
{
    if first > last || last >= 32 {
        m
    } else {
        outputs_from(with_bit(m, bank_register(GpioBank::Bank1, GPIO_OE), first, false), (first + 1) as u32, last)
    }
}

/// The registers after the board's GPIO was set up: the four banks clocked,
/// bank 1's pins all made inputs, then its LED pins 21 to 24 made outputs.
pub open spec fn gpio_initialized(m: Map<u32, u32>) -> Map<u32, u32> {
    let clocked = m.insert(FuncClock::Gpio1.register_spec(), CLOCK_ENABLE)
        .insert(FuncClock::Gpio2.register_spec(), CLOCK_ENABLE)
        .insert(FuncClock::Gpio3.register_spec(), CLOCK_ENABLE)
        .insert(FuncClock::Gpio0.register_spec(), CLOCK_ENABLE);
    outputs_from(clocked.insert(bank_register(GpioBank::Bank1, GPIO_OE), 0xFFFF_FFFF), 21, 24)
}

/// The board's GPIO controllers.
pub struct Register;

impl Register {
    /// The controllers.
    pub fn new() -> Self {
        Register
    }
}

impl GpioRegister for Register {
    /// Clocks the four banks, makes every pin of bank 1 an input, then makes
    /// its LED pins 21 to 24 outputs.
    fn init(&self, regs: &mut RegisterFile)
        ensures
            final(regs)@ == gpio_initialized(old(regs)@),
    {
        crate::boards::bblack::clock::enable(regs, FuncClock::Gpio1);
        crate::boards::bblack::clock::enable(regs, FuncClock::Gpio2);
        crate::boards::bblack::clock::enable(regs, FuncClock::Gpio3);
        crate::boards::bblack::clock::enable(regs, FuncClock::Gpio0);
        wreg(regs, GpioBank::Bank1.address() + GPIO_OE, !0u32);
        assert(!0u32 == 0xFFFF_FFFFu32) by (bit_vector);
        let ghost start = regs@;
        let mut i: u8 = 21;
        while i <= 24
            invariant
                21 <= i <= 25,
                outputs_from(start, 21, 24) == outputs_from(regs@, i as u32, 24),
            decreases 25 - i,
        {
            self.pin_mode(regs, (i, GpioBank::Bank1), GpioMode::Output);
            i = i + 1;
        }
    }

    /// Makes `pin` an input or an output.
    fn pin_mode(&self, regs: &mut RegisterFile, pin: GpioPin, mode: GpioMode)
        ensures
            final(regs)@ == with_bit(old(regs)@, bank_register(pin.1, GPIO_OE), pin.0 as u32, mode == GpioMode::Input),
    {
        match mode {
            GpioMode::Input => {
                wbit(regs, pin.1.address() + GPIO_OE, pin.0 as u32, true);
            },
            GpioMode::Output => {
                wbit(regs, pin.1.address() + GPIO_OE, pin.0 as u32, false);
            },
        }
    }

    /// Drives `pin` high (`value` true) or low.
    fn write(&self, regs: &mut RegisterFile, pin: GpioPin, value: bool)
        ensures
            final(regs)@ == with_bit(old(regs)@, bank_register(pin.1, GPIO_DATAOUT), pin.0 as u32, value),
    {
        if value {
            wbit(regs, pin.1.address() + GPIO_DATAOUT, pin.0 as u32, true);
        } else {
            wbit(regs, pin.1.address() + GPIO_DATAOUT, pin.0 as u32, false);
        }
    }

    /// Whether `pin` reads high.
    fn read(&self, regs: &RegisterFile, pin: GpioPin) -> (high: bool)
        ensures
            high == crate::sys::bit_of(regs@[bank_register(pin.1, GPIO_DATAIN)], pin.0 as u32),
    {
        rbit(regs, pin.1.address() + GPIO_DATAIN, pin.0 as u32)
    }
}

impl Default for Register {
    fn default() -> Self {
        Register::new()
    }
}

} // verus!
