use vstd::prelude::*;
use crate::sys::{RegisterFile, GPIO1, bit_of, clear_bit, read_addr, read_bit, set_bit, write_addr};
use crate::shared::gpio::{GpioBank, GpioPin, bank_address};
use crate::internals::clock::{self, FuncClock, CLOCK_ENABLE};
use crate::interrupts::{self, Mode, level_word, INTC_ILR};

verus! {

/// Offset of the output-enable register (a set bit makes the pin an input).
pub const GPIO_OE: u32 = 0x134;
/// Offset of the input-level register.
pub const GPIO_DATAIN: u32 = 0x138;
/// Offset of the output-level register.
pub const GPIO_DATAOUT: u32 = 0x13C;
/// Offset of the raw interrupt-status register of line 0.
pub const GPIO_IRQSTATUS_RAW_0: u32 = 0x24;
/// Offset of the interrupt-status register of line 0 (write 1 to acknowledge).
pub const GPIO_IRQSTATUS_0: u32 = 0x2C;
/// Offset of the interrupt-enable-set register of line 0.
pub const GPIO_IRQSTATUS_SET0: u32 = 0x34;
/// Offset of the rising-edge detection register.
pub const GPIO_RISINGDETECT: u32 = 0x148;
/// Offset of the falling-edge detection register.
pub const GPIO_FALLINGDETECT: u32 = 0x14C;
/// Interrupt line of the first GPIO1 interrupt.
pub const GPIOINT1A: u32 = 98;

/// Direction of a pin.
#[derive(Clone, Copy, PartialEq, Eq, Structural)]
pub enum GpioMode {
    Input,
    Output,
}

/// The edges on which a pin raises an interrupt.
#[derive(Clone, Copy, PartialEq, Eq, Structural)]
pub enum GpioInterrupt {
    Rising,
    Falling,
    Change,
}

/// `m` with bit `bit` of the register at `address` set.
pub open spec fn bit_set(m: Map<u32, u32>, address: u32, bit: u32) -> Map<u32, u32> {
    m.insert(address, m[address] | (1u32 << bit))
}

/// `m` with bit `bit` of the register at `address` cleared.
pub open spec fn bit_cleared(m: Map<u32, u32>, address: u32, bit: u32) -> Map<u32, u32> {
    m.insert(address, m[address] & !(1u32 << bit))
}

/// The register `offset` of the bank of `pin`.
pub open spec fn pin_register(pin: GpioPin, offset: u32) -> u32 {
    (bank_address(pin.1) + offset) as u32
}

/// Makes `pin` an input (its output-enable bit set) or an output (bit cleared).
pub fn pin_mode(regs: &mut RegisterFile, pin: GpioPin, mode: GpioMode)
    requires
        pin.0 < 32,
    ensures
        final(regs)@ == match mode {
            GpioMode::Input => bit_set(old(regs)@, pin_register(pin, GPIO_OE), pin.0),
            GpioMode::Output => bit_cleared(old(regs)@, pin_register(pin, GPIO_OE), pin.0),
        },
{
    let (number, bank) = pin;
    match mode {
        GpioMode::Input => set_bit(regs, bank.address() + GPIO_OE, number),
        GpioMode::Output => clear_bit(regs, bank.address() + GPIO_OE, number),
    }
}

/// Drives `pin` high (`value` true) or low: sets or clears its output bit.
pub fn write(regs: &mut RegisterFile, pin: GpioPin, value: bool)
    requires
        pin.0 < 32,
    ensures
        final(regs)@ == if value {
            bit_set(old(regs)@, pin_register(pin, GPIO_DATAOUT), pin.0)
        } else {
            bit_cleared(old(regs)@, pin_register(pin, GPIO_DATAOUT), pin.0)
        },
{
    let (number, bank) = pin;
    if value {
        set_bit(regs, bank.address() + GPIO_DATAOUT, number);
    } else {
        clear_bit(regs, bank.address() + GPIO_DATAOUT, number);
    }
}

/// The level on `pin`: its input bit.
pub fn read(regs: &RegisterFile, pin: GpioPin) -> (high: bool)
    requires
        pin.0 < 32,
    ensures
        high == bit_of(regs@[pin_register(pin, GPIO_DATAIN)], pin.0),
{
    let (number, bank) = pin;
    read_bit(regs, bank.address() + GPIO_DATAIN, number)
}

/// The registers after GPIO1 pins 21 to 24 have been made outputs, one after the other.
pub open spec fn leds_as_outputs(m: Map<u32, u32>) -> Map<u32, u32> {
    let oe = (0x4804_C000u32 + GPIO_OE) as u32;
    bit_cleared(bit_cleared(bit_cleared(bit_cleared(m, oe, 21), oe, 22), oe, 23), oe, 24)
}

/// Switches the GPIO1 clock on, enables the GPIO1 interrupt line (IRQ,
/// priority 1) and makes pins 21 to 24 of GPIO1 (the board's LEDs) outputs.
pub fn initialize(regs: &mut RegisterFile)
    ensures
        ({
            let clocked = old(regs)@.insert(FuncClock::Gpio1.register_spec(), CLOCK_ENABLE);
            let level = clocked.insert(
                (crate::sys::INTC + INTC_ILR + 4 * GPIOINT1A) as u32,
                level_word(Mode::IRQ, 1),
            );
            let clear = (crate::sys::INTC + 0xE4 + 4) as u32;
            let unmasked = level.insert(clear, level[clear] | (1u32 << (GPIOINT1A % 32)));
            final(regs)@ == leds_as_outputs(unmasked)
        }),
{
    clock::enable(regs, FuncClock::Gpio1);
    interrupts::enable_interrupt(regs, GPIOINT1A, Mode::IRQ, 1);
    let mut i: u32 = 21;
    let ghost start = regs@;
    while i <= 24
        invariant
            21 <= i <= 25,
            i == 21 ==> regs@ == start,
            i == 22 ==> regs@ == bit_cleared(start, 0x4804_C134u32, 21),
            i == 23 ==> regs@ == bit_cleared(bit_cleared(start, 0x4804_C134u32, 21), 0x4804_C134u32, 22),
            i == 24 ==> regs@ == bit_cleared(bit_cleared(bit_cleared(start, 0x4804_C134u32, 21), 0x4804_C134u32, 22), 0x4804_C134u32, 23),
            i == 25 ==> regs@ == leds_as_outputs(start),
        decreases 25 - i,
    {
        pin_mode(regs, (i, GpioBank::Gpio1), GpioMode::Output);
        i += 1;
    }
}

/// Makes GPIO1 pin `pin` raise its interrupt on the given edges: enables the
/// pin's interrupt and sets its rising- and/or falling-edge detection bits.
pub fn enable_interrupt(regs: &mut RegisterFile, pin: u32, interrupt: GpioInterrupt)
    requires
        pin < 32,
    ensures
        ({
            let enabled = bit_set(old(regs)@, (GPIO1 + GPIO_IRQSTATUS_SET0) as u32, pin);
            final(regs)@ == match interrupt {
                GpioInterrupt::Rising => bit_set(enabled, (GPIO1 + GPIO_RISINGDETECT) as u32, pin),
                GpioInterrupt::Falling => bit_set(enabled, (GPIO1 + GPIO_FALLINGDETECT) as u32, pin),
                GpioInterrupt::Change => bit_set(
                    bit_set(enabled, (GPIO1 + GPIO_RISINGDETECT) as u32, pin),
                    (GPIO1 + GPIO_FALLINGDETECT) as u32,
                    pin,
                ),
            }
        }),
{
    set_bit(regs, GPIO1 + GPIO_IRQSTATUS_SET0, pin);
    match interrupt {
        GpioInterrupt::Rising => set_bit(regs, GPIO1 + GPIO_RISINGDETECT, pin),
        GpioInterrupt::Falling => set_bit(regs, GPIO1 + GPIO_FALLINGDETECT, pin),
        GpioInterrupt::Change => {
            set_bit(regs, GPIO1 + GPIO_RISINGDETECT, pin);
            set_bit(regs, GPIO1 + GPIO_FALLINGDETECT, pin);
        },
    }
}

/// The GPIO1 pin whose interrupt is pending: the lowest set bit of the raw
/// interrupt status. Some interrupt is pending when this is called.
pub fn pending_interrupt(regs: &RegisterFile) -> (pin: u32)
    requires
        regs@[(GPIO1 + GPIO_IRQSTATUS_RAW_0) as u32] != 0,
    ensures
        pin < 32,
        bit_of(regs@[(GPIO1 + GPIO_IRQSTATUS_RAW_0) as u32], pin),
        forall|j: u32| j < pin ==> !#[trigger] bit_of(regs@[(GPIO1 + GPIO_IRQSTATUS_RAW_0) as u32], j),
{
    let raw = read_addr(regs, GPIO1 + GPIO_IRQSTATUS_RAW_0);
    let number = raw.trailing_zeros();
    proof {
        vstd::std_specs::bits::axiom_u32_trailing_zeros(raw);
        assert forall|j: u32| j < number implies !#[trigger] bit_of(raw, j) by {
            assert((raw >> j) & 1u32 == 0u32);
        }
    }
    number
}

/// Acknowledges the interrupt of GPIO1 pin `pin`.
pub fn acknowledge_interrupt(regs: &mut RegisterFile, pin: u32)
    requires
        pin < 32,
    ensures
        final(regs)@ == old(regs)@.insert((GPIO1 + GPIO_IRQSTATUS_0) as u32, 1u32 << pin),
{
    write_addr(regs, GPIO1 + GPIO_IRQSTATUS_0, 1u32 << pin);
}

} // verus!
