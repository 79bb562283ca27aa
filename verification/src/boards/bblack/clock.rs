use vstd::prelude::*;
use crate::sys::RegisterFile;
use crate::utils::wreg;

verus! {

/// The value that switches a module's functional clock on.
pub const CLOCK_ENABLE: u32 = 0x2;

/// The clock-manager blocks of the board.
#[derive(Clone, Copy, PartialEq, Eq, Structural)]
pub enum ClockModule {
    CmPer,
    CmWkup,
}

impl ClockModule {
    /// Base address of the block.
    pub open spec fn address_spec(self) -> u32 {
        match self {
            ClockModule::CmPer => 0x44E0_0000,
            ClockModule::CmWkup => 0x44E0_0400,
        }
    }

    /// Base address of the block.
    pub fn address(&self) -> (a: u32)
        ensures
            a == self.address_spec(),
    {
        match self {
            ClockModule::CmPer => 0x44E0_0000,
            ClockModule::CmWkup => 0x44E0_0400,
        }
    }
}

/// The functional clocks of the board's GPIO banks and timers.
#[derive(Clone, Copy, PartialEq, Eq, Structural)]
pub enum FuncClock {
    Gpio1,
    Gpio2,
    Gpio3,
    Timer7,
    Timer2,
    Timer3,
    Timer4,
    Timer5,
    Timer6,
    Gpio0,
}

impl FuncClock {
    /// Offset of the clock's control register in its block.
    pub open spec fn offset_spec(self) -> u32 {
        match self {
            FuncClock::Gpio1 => 0xAC,
            FuncClock::Gpio2 => 0xB0,
            FuncClock::Gpio3 => 0xB4,
            FuncClock::Timer7 => 0x7C,
            FuncClock::Timer2 => 0x80,
            FuncClock::Timer3 => 0x84,
            FuncClock::Timer4 => 0x88,
            FuncClock::Timer5 => 0xEC,
            FuncClock::Timer6 => 0xF0,
            FuncClock::Gpio0 => 0x8,
        }
    }

    /// The block of the clock: GPIO0 is in the wake-up domain, the others in the peripheral one.
    pub open spec fn clock_module_spec(self) -> ClockModule {
        match self {
            FuncClock::Gpio0 => ClockModule::CmWkup,
            _ => ClockModule::CmPer,
        }
    }

    /// The address of the clock's control register.
    pub open spec fn register_spec(self) -> u32 {
        (self.clock_module_spec().address_spec() + self.offset_spec()) as u32
    }

    /// Offset of the clock's control register in its block.
    pub fn offset(&self) -> (o: u32)
        ensures
            o == self.offset_spec(),
    {
        match self {
            FuncClock::Gpio1 => 0xAC,
            FuncClock::Gpio2 => 0xB0,
            FuncClock::Gpio3 => 0xB4,
            FuncClock::Timer7 => 0x7C,
            FuncClock::Timer2 => 0x80,
            FuncClock::Timer3 => 0x84,
            FuncClock::Timer4 => 0x88,
            FuncClock::Timer5 => 0xEC,
            FuncClock::Timer6 => 0xF0,
            FuncClock::Gpio0 => 0x8,
        }
    }

    /// The block of the clock.
    pub fn clock_module(&self) -> (m: ClockModule)
        ensures
            m == self.clock_module_spec(),
    {
        match self {
            FuncClock::Gpio1 => ClockModule::CmPer,
            FuncClock::Gpio2 => ClockModule::CmPer,
            FuncClock::Gpio3 => ClockModule::CmPer,
            FuncClock::Timer7 => ClockModule::CmPer,
            FuncClock::Timer2 => ClockModule::CmPer,
            FuncClock::Timer3 => ClockModule::CmPer,
            FuncClock::Timer4 => ClockModule::CmPer,
            FuncClock::Timer5 => ClockModule::CmPer,
            FuncClock::Timer6 => ClockModule::CmPer,
            FuncClock::Gpio0 => ClockModule::CmWkup,
        }
    }

    /// Switches the clock on.
    pub fn enable(self, regs: &mut RegisterFile)
        ensures
            final(regs)@ == old(regs)@.insert(self.register_spec(), CLOCK_ENABLE),
    {
        let address = self.clock_module().address() + self.offset();
        wreg(regs, address, CLOCK_ENABLE);
    }
}

/// Switches `clock` on.
pub fn enable(regs: &mut RegisterFile, clock: FuncClock)
    ensures
        final(regs)@ == old(regs)@.insert(clock.register_spec(), CLOCK_ENABLE),
{
    clock.enable(regs);
}

} // verus!
