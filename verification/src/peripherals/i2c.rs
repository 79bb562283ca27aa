use vstd::prelude::*;
use crate::sys::{RegisterFile, bit_of, clear_bit, read_addr, set_bit, write_addr, write_or};
use crate::internals::clock::{CLOCK_ENABLE, FuncClock};
use crate::interrupts::Interrupt;
use crate::peripherals::gpio::GpioBank;
use crate::boards::bblack::peripherals::gpio::{bank_register, with_bit, GPIO_DATAOUT};

verus! {

/// Offset of the raw interrupt-status register.
pub const I2C_IRQSTATUS_RAW: u32 = 0x24;
/// Offset of the system-configuration register.
pub const I2C_SYSTEM_CONFIGURATION: u32 = 0x10;
/// Offset of the system-status register (bit 0: reset done).
pub const I2C_SYSTEM_STATUS: u32 = 0x90;
/// Offset of the configuration register.
pub const I2C_CONFIGURATION: u32 = 0xA4;
/// Offset of the prescaler register.
pub const I2C_PRESCALER: u32 = 0xB0;
/// Offset of the SCL low-time register.
pub const I2C_SCL_LOW_TIME: u32 = 0xB4;
/// Offset of the SCL high-time register.
pub const I2C_SCL_HIGH_TIME: u32 = 0xB8;
/// Offset of the system-test register.
pub const I2C_SYSTEST: u32 = 0xBC;
/// The module's input clock, in Hz.
pub const SYSCLOCK: u32 = 12_000_000;

/// The I2C controllers of the board.
#[derive(Clone, Copy, PartialEq, Eq, Structural)]
pub enum I2CModule {
    I2C0,
    I2C1,
    I2C2,
}

/// Base address of each controller.
pub open spec fn module_address(m: I2CModule) -> u32 {
    match m {
        I2CModule::I2C0 => 0x44E0_B000,
        I2CModule::I2C1 => 0x4802_A000,
        I2CModule::I2C2 => 0x4819_C000,
    }
}

/// The register of controller `m` at `offset`.
pub open spec fn module_register(m: I2CModule, offset: u32) -> u32 {
    (module_address(m) + offset) as u32
}

/// The functional clock of each controller.
pub open spec fn module_clock(m: I2CModule) -> FuncClock {
    match m {
        I2CModule::I2C0 => FuncClock::I2C0,
        I2CModule::I2C1 => FuncClock::I2C1,
        I2CModule::I2C2 => FuncClock::I2C2,
    }
}

/// The interrupt line of each controller.
pub open spec fn module_interrupt(m: I2CModule) -> u8 {
    match m {
        I2CModule::I2C0 => 70,
        I2CModule::I2C1 => 71,
        I2CModule::I2C2 => 30,
    }
}

/// The slot of each controller in the registry.
pub open spec fn module_index(m: I2CModule) -> int {
    match m {
        I2CModule::I2C0 => 0,
        I2CModule::I2C1 => 1,
        I2CModule::I2C2 => 2,
    }
}

impl I2CModule {
    /// Base address of the controller.
    pub fn address(&self) -> (a: u32)
        ensures
            a == module_address(*self),
    {
        match self {
            I2CModule::I2C0 => 0x44E0_B000,
            I2CModule::I2C1 => 0x4802_A000,
            I2CModule::I2C2 => 0x4819_C000,
        }
    }

    /// The controller's functional clock.
    pub fn clock(&self) -> (c: FuncClock)
        ensures
            c == module_clock(*self),
    {
        match self {
            I2CModule::I2C0 => FuncClock::I2C0,
            I2CModule::I2C1 => FuncClock::I2C1,
            I2CModule::I2C2 => FuncClock::I2C2,
        }
    }

    /// The controller's interrupt line.
    pub fn interrupt(&self) -> (i: Interrupt)
        ensures
            i.number == module_interrupt(*self),
    {
        match self {
            I2CModule::I2C0 => Interrupt { number: 70 },
            I2CModule::I2C1 => Interrupt { number: 71 },
            I2CModule::I2C2 => Interrupt { number: 30 },
        }
    }

    /// The controller's slot in the registry.
    pub fn index(&self) -> (i: usize)
        ensures
            i == module_index(*self),
    {
        match self {
            I2CModule::I2C0 => 0,
            I2CModule::I2C1 => 1,
            I2CModule::I2C2 => 2,
        }
    }
}

/// The role of a controller on the bus.
#[derive(Clone, Copy, PartialEq, Eq, Structural)]
pub enum Mode {
    MasterReceive,
    MasterTransmit,
    SlaveTransmit,
}

/// The configuration bits of each role: master at bit 10, transmitter at bit 9.
pub open spec fn mode_bits(mode: Mode) -> u32 {
    match mode {
        Mode::MasterReceive => 1u32 << 10,
        Mode::MasterTransmit => (1u32 << 10) | (1u32 << 9),
        Mode::SlaveTransmit => 1u32 << 9,
    }
}

/// The self-test modes.
#[derive(Clone, Copy, PartialEq, Eq, Structural)]
pub enum TestMode {
    Functional,
    SclCounter,
    LoopBack,
}

/// The number of each self-test mode.
pub open spec fn test_mode_number(mode: TestMode) -> u32 {
    match mode {
        TestMode::Functional => 0x0,
        TestMode::SclCounter => 0x2,
        TestMode::LoopBack => 0x3,
    }
}

/// The bus speeds.
#[derive(Clone, Copy, PartialEq, Eq, Structural)]
pub enum ClockSpeed {
    Normal,
    Fast,
}

/// Each bus speed in Hz.
pub open spec fn speed_hz(speed: ClockSpeed) -> u32 {
    match speed {
        ClockSpeed::Normal => 100_000,
        ClockSpeed::Fast => 400_000,
    }
}

/// The SCL low time for a bus speed: half a period of the input clock, less 7.
pub open spec fn scl_low(speed: ClockSpeed) -> u32 {
    (SYSCLOCK / speed_hz(speed) / 2 - 7) as u32
}

/// The SCL high time for a bus speed: half a period of the input clock, less 5.
pub open spec fn scl_high(speed: ClockSpeed) -> u32 {
    (SYSCLOCK / speed_hz(speed) / 2 - 5) as u32
}

/// The registers after a controller was set up: clocked, reset (soft-reset
/// bit set, module disabled), auto-idle off, timings for `speed`, the word at
/// its base address cleared, its role set, and enabled.
pub open spec fn configured(m: Map<u32, u32>, module: I2CModule, speed: ClockSpeed, mode: Mode) -> Map<u32, u32> {
    let sysc = module_register(module, I2C_SYSTEM_CONFIGURATION);
    let con = module_register(module, I2C_CONFIGURATION);
    let clocked = m.insert(module_clock(module).register_spec(), CLOCK_ENABLE);
    let reset1 = clocked.insert(sysc, clocked[sysc] | (1u32 << 1));
    let reset2 = reset1.insert(con, reset1[con] & !(1u32 << 15));
    let idle = reset2.insert(sysc, reset2[sysc] & !(1u32 << 0));
    let timed = idle.insert(module_register(module, I2C_PRESCALER), 0x3).insert(
        module_register(module, I2C_SCL_LOW_TIME),
        scl_low(speed),
    ).insert(module_register(module, I2C_SCL_HIGH_TIME), scl_high(speed));
    let addressed = timed.insert(module_address(module), 0);
    let moded = addressed.insert(con, addressed[con] | mode_bits(mode));
    moded.insert(con, moded[con] | (1u32 << 15))
}

/// A configured I2C controller.
pub struct I2C {
    module: I2CModule,
    mode: Mode,
}

impl I2C {
    /// The controller.
    pub closed spec fn module_spec(&self) -> I2CModule {
        self.module
    }

    /// Its role.
    pub closed spec fn mode_spec(&self) -> Mode {
        self.mode
    }

    /// Sets `module` up for `mode` at `speed`; the caller then waits for the
    /// reset to complete (`reset_done`).
    pub fn new(regs: &mut RegisterFile, module: I2CModule, speed: ClockSpeed, mode: Mode) -> (i2c: I2C)
        ensures
            i2c.module_spec() == module,
            i2c.mode_spec() == mode,
            final(regs)@ == configured(old(regs)@, module, speed, mode),
    {
        let i2c = I2C { module, mode };
        i2c.module.clock().enable(regs);
        i2c.reset(regs);
        i2c.autoidle_disable(regs);
        i2c.configure_timings(regs, speed);
        i2c.set_own_address(regs);
        i2c.set_mode(regs);
        i2c.enable(regs);
        i2c
    }

    /// Whether the controller reports its reset complete.
    pub fn reset_done(&self, regs: &RegisterFile) -> (done: bool)
        ensures
            done == (regs@[module_register(self.module_spec(), I2C_SYSTEM_STATUS)] & 0x1 != 0),
    {
        read_addr(regs, self.module.address() + I2C_SYSTEM_STATUS) & 0x1 != 0
    }

    /// Starts a soft reset and disables the module.
    pub fn reset(&self, regs: &mut RegisterFile)
        ensures
            ({
                let sysc = module_register(self.module_spec(), I2C_SYSTEM_CONFIGURATION);
                let con = module_register(self.module_spec(), I2C_CONFIGURATION);
                let r1 = old(regs)@.insert(sysc, old(regs)@[sysc] | (1u32 << 1));
                final(regs)@ == r1.insert(con, r1[con] & !(1u32 << 15))
            }),
    {
        set_bit(regs, self.module.address() + I2C_SYSTEM_CONFIGURATION, 1);
        clear_bit(regs, self.module.address() + I2C_CONFIGURATION, 15);
    }

    /// Enables the module.
    pub fn enable(&self, regs: &mut RegisterFile)
        ensures
            ({
                let con = module_register(self.module_spec(), I2C_CONFIGURATION);
                final(regs)@ == old(regs)@.insert(con, old(regs)@[con] | (1u32 << 15))
            }),
    {
        set_bit(regs, self.module.address() + I2C_CONFIGURATION, 15);
    }

    /// Switches the module's auto-idle off.
    pub fn autoidle_disable(&self, regs: &mut RegisterFile)
        ensures
            ({
                let sysc = module_register(self.module_spec(), I2C_SYSTEM_CONFIGURATION);
                final(regs)@ == old(regs)@.insert(sysc, old(regs)@[sysc] & !(1u32 << 0))
            }),
    {
        clear_bit(regs, self.module.address() + I2C_SYSTEM_CONFIGURATION, 0);
    }

    /// Clears the word at the module's base address (where the own address is
    /// meant to go).
    pub fn set_own_address(&self, regs: &mut RegisterFile)
        ensures
            final(regs)@ == old(regs)@.insert(module_address(self.module_spec()), 0),
    {
        write_addr(regs, self.module.address(), 0x0);
    }

    /// Sets the prescaler to divide the input clock by 4 and the SCL low and
    /// high times for `speed`.
    pub fn configure_timings(&self, regs: &mut RegisterFile, speed: ClockSpeed)
        ensures
            final(regs)@ == old(regs)@.insert(module_register(self.module_spec(), I2C_PRESCALER), 0x3).insert(
                module_register(self.module_spec(), I2C_SCL_LOW_TIME),
                scl_low(speed),
            ).insert(module_register(self.module_spec(), I2C_SCL_HIGH_TIME), scl_high(speed)),
    {
        let base = self.module.address();
        write_addr(regs, base + I2C_PRESCALER, 0x3);
        let hz: u32 = match speed {
            ClockSpeed::Normal => 100_000,
            ClockSpeed::Fast => 400_000,
        };
        write_addr(regs, base + I2C_SCL_LOW_TIME, SYSCLOCK / hz / 2 - 7);
        write_addr(regs, base + I2C_SCL_HIGH_TIME, SYSCLOCK / hz / 2 - 5);
    }

    /// ORs the bits of the controller's role into its configuration register.
    pub fn set_mode(&self, regs: &mut RegisterFile)
        ensures
            ({
                let con = module_register(self.module_spec(), I2C_CONFIGURATION);
                final(regs)@ == old(regs)@.insert(con, old(regs)@[con] | mode_bits(self.mode_spec()))
            }),
    {
        let address = self.module.address() + I2C_CONFIGURATION;
        let mut value = read_addr(regs, address);
        match self.mode {
            Mode::MasterReceive => value = value | (1u32 << 10),
            Mode::MasterTransmit => value = value | ((1u32 << 10) | (1u32 << 9)),
            Mode::SlaveTransmit => value = value | (1u32 << 9),
        }
        write_addr(regs, address, value);
    }

    /// Whether the bus is busy (raw status bit 12); a transfer begins once it is free.
    pub fn bus_busy(&self, regs: &RegisterFile) -> (busy: bool)
        ensures
            busy == (regs@[module_register(self.module_spec(), I2C_IRQSTATUS_RAW)] & (1u32 << 12) != 0),
    {
        read_addr(regs, self.module.address() + I2C_IRQSTATUS_RAW) & (1u32 << 12) != 0
    }

    /// Begins a transfer: sets the start and stop bits of the configuration register.
    pub fn begin(&self, regs: &mut RegisterFile)
        ensures
            ({
                let con = module_register(self.module_spec(), I2C_CONFIGURATION);
                final(regs)@ == old(regs)@.insert(con, old(regs)@[con] | 0x3)
            }),
    {
        write_or(regs, self.module.address() + I2C_CONFIGURATION, 0x3);
    }

    /// Switches the self-test mode `test_mode` on.
    pub fn start_testing(&self, regs: &mut RegisterFile, test_mode: TestMode)
        ensures
            ({
                let test = module_register(self.module_spec(), I2C_SYSTEST);
                final(regs)@ == old(regs)@.insert(
                    test,
                    old(regs)@[test] | ((1u32 << 15) | (test_mode_number(test_mode) << 12)),
                )
            }),
    {
        let number: u32 = match test_mode {
            TestMode::Functional => 0x0,
            TestMode::SclCounter => 0x2,
            TestMode::LoopBack => 0x3,
        };
        write_or(regs, self.module.address() + I2C_SYSTEST, (1u32 << 15) | (number << 12));
    }

    /// Lights the LED on GPIO1 pin 23 when the test register reads SCL low (bit 7 clear).
    pub fn check_scl(&self, regs: &mut RegisterFile)
        ensures
            ({
                let low = old(regs)@[module_register(self.module_spec(), I2C_SYSTEST)] & (1u32 << 7) == 0;
                final(regs)@ == if low {
                    with_bit(old(regs)@, bank_register(GpioBank::Bank1, GPIO_DATAOUT), 23, true)
                } else {
                    old(regs)@
                }
            }),
    {
        if read_addr(regs, self.module.address() + I2C_SYSTEST) & (1u32 << 7) == 0 {
            crate::peripherals::gpio::write(regs, (23, GpioBank::Bank1), true);
        }
    }
}

/// The configured controllers, by slot; a controller is taken out while in use.
pub struct I2CModules {
    slots: Vec<Option<I2C>>,
}

impl I2CModules {
    /// Whether each slot holds a controller, and which.
    pub closed spec fn held(&self) -> Seq<Option<I2CModule>> {
        self.slots@.map_values(|s: Option<I2C>| match s {
            Some(i) => Some(i.module),
            None => None,
        })
    }

    /// Whether the registry has its three slots.
    pub closed spec fn wf(&self) -> bool {
        &&& self.slots@.len() == 3
        &&& forall|k: int| 0 <= k < 3 && #[trigger] self.slots@[k] is Some ==> module_index(self.slots@[k]->0.module) == k
    }

    /// A registry with no controller.
    pub fn new() -> (r: Self)
        ensures
            r.wf(),
            r.held() == Seq::new(3, |i: int| None::<I2CModule>),
    {
        let mut slots: Vec<Option<I2C>> = Vec::new();
        slots.push(None);
        slots.push(None);
        slots.push(None);
        let r = I2CModules { slots };
        assert(r.held() =~= Seq::new(3, |i: int| None::<I2CModule>));
        r
    }

    /// Sets `module` up at normal speed for `mode` and stores it in its slot.
    pub fn register_i2c_module(&mut self, regs: &mut RegisterFile, module: I2CModule, mode: Mode)
        requires
            old(self).wf(),
        ensures
            final(self).wf(),
            final(self).held() == old(self).held().update(module_index(module), Some(module)),
            final(regs)@ == configured(old(regs)@, module, ClockSpeed::Normal, mode),
    {
        let i2c = I2C::new(regs, module, ClockSpeed::Normal, mode);
        let i = module.index();
        self.slots.set(i, Some(i2c));
        assert(self.held() =~= old(self).held().update(module_index(module), Some(module)));
    }

    /// Takes the controller `module` out of its slot, if it is there.
    pub fn get_i2c_module(&mut self, module: I2CModule) -> (r: Option<I2C>)
        requires
            old(self).wf(),
        ensures
            final(self).wf(),
            r is Some <==> old(self).held()[module_index(module)] is Some,
            r is Some ==> r->0.module_spec() == module,
            final(self).held() == old(self).held().update(module_index(module), None),
    {
        let i = module.index();
        let mut taken: Option<I2C> = None;
        self.slots.set_and_swap(i, &mut taken);
        assert(self.held() =~= old(self).held().update(module_index(module), None));
        taken
    }

    /// Puts a controller back into its slot once it is no longer in use.
    pub fn put_back(&mut self, i2c: I2C)
        requires
            old(self).wf(),
        ensures
            final(self).wf(),
            final(self).held() == old(self).held().update(module_index(i2c.module_spec()), Some(i2c.module_spec())),
    {
        let i = i2c.module.index();
        let ghost m = i2c.module;
        self.slots.set(i, Some(i2c));
        assert(self.held() =~= old(self).held().update(module_index(m), Some(m)));
    }
}

} // verus!
