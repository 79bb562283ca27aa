use vstd::prelude::*;
use crate::sys::{RegisterFile, write_addr};

verus! {

/// The value that switches a module's functional clock on.
pub const CLOCK_ENABLE: u32 = 0x2;

/// The clock-manager blocks that hold the clock-control registers.
#[derive(Clone, Copy, PartialEq, Eq, Structural)]
pub enum ClockModule {
    CmPer,
    CmWkup,
}

impl ClockModule {
    /// Base address of the block.
    pub open spec fn address_spec(self) -> u32 {
        match self {
            ClockModule::CmPer => 0x44E0_0000,
            ClockModule::CmWkup => 0x44E0_0400,
        }
    }

    /// Base address of the block.
    pub fn address(&self) -> (a: u32)
        ensures
            a == self.address_spec(),
    {
        match self {
            ClockModule::CmPer => 0x44E0_0000,
            ClockModule::CmWkup => 0x44E0_0400,
        }
    }
}

/// The functional clocks of the peripherals the kernel drives.
#[derive(Clone, Copy, PartialEq, Eq, Structural)]
pub enum FuncClock {
    Timer7,
    Timer2,
    Timer3,
    Timer4,
    Gpio1,
    Gpio2,
    Gpio3,
    Timer5,
    Timer6,
    I2C0,
    I2C1,
    I2C2,
}

impl FuncClock {
    /// Offset of the clock's control register in its block.
    pub open spec fn offset_spec(self) -> u32 {
        match self {
            FuncClock::Timer7 => 0x7C,
            FuncClock::Timer2 => 0x80,
            FuncClock::Timer3 => 0x84,
            FuncClock::Timer4 => 0x88,
            FuncClock::Gpio1 => 0xAC,
            FuncClock::Gpio2 => 0xB0,
            FuncClock::Gpio3 => 0xB4,
            FuncClock::Timer5 => 0xEC,
            FuncClock::Timer6 => 0xF0,
            FuncClock::I2C0 => 0xB8,
            FuncClock::I2C1 => 0x48,
            FuncClock::I2C2 => 0x44,
        }
    }

    /// The block that holds the clock's control register.
    pub open spec fn clock_module_spec(self) -> ClockModule {
        match self {
            FuncClock::I2C0 => ClockModule::CmWkup,
            _ => ClockModule::CmPer,
        }
    }

    /// The address of the clock's control register.
    pub open spec fn register_spec(self) -> u32 {
        (self.clock_module_spec().address_spec() + self.offset_spec()) as u32
    }

    /// Offset of the clock's control register in its block.
    pub fn offset(&self) -> (o: u32)
        ensures
            o == self.offset_spec(),
    {
        match self {
            FuncClock::Timer7 => 0x7C,
            FuncClock::Timer2 => 0x80,
            FuncClock::Timer3 => 0x84,
            FuncClock::Timer4 => 0x88,
            FuncClock::Gpio1 => 0xAC,
            FuncClock::Gpio2 => 0xB0,
            FuncClock::Gpio3 => 0xB4,
            FuncClock::Timer5 => 0xEC,
            FuncClock::Timer6 => 0xF0,
            FuncClock::I2C0 => 0xB8,
            FuncClock::I2C1 => 0x48,
            FuncClock::I2C2 => 0x44,
        }
    }

    /// The block that holds the clock's control register.
    pub fn clock_module(&self) -> (m: ClockModule)
        ensures
            m == self.clock_module_spec(),
    {
        match self {
            FuncClock::I2C0 => ClockModule::CmWkup,
            _ => ClockModule::CmPer,
        }
    }

    /// Switches the clock on: writes `CLOCK_ENABLE` to its control register.
    pub fn enable(self, regs: &mut RegisterFile)
        ensures
            final(regs)@ == old(regs)@.insert(self.register_spec(), CLOCK_ENABLE),
    {
        let address = self.clock_module().address() + self.offset();
        write_addr(regs, address, CLOCK_ENABLE);
    }
}

/// Switches `clock` on.
pub fn enable(regs: &mut RegisterFile, clock: FuncClock)
    ensures
        final(regs)@ == old(regs)@.insert(clock.register_spec(), CLOCK_ENABLE),
{
    clock.enable(regs);
}

} // verus!
