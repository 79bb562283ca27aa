use vstd::prelude::*;
use crate::sys::{RegisterFile, CM_PER, GPIO1, INTC, bit_of, clear_bit, read_addr, read_bit, set_bit, write_addr};
use crate::interrupts::{self, Mode, level_word, INTC_ILR};

verus! {

/// Offset of the GPIO1 clock-control register in the peripheral clock block.
pub const CM_PER_GPIO1_CLKCTRL: u32 = 0xAC;
/// Offset of the output-enable register (a set bit makes the pin an input).
pub const GPIO_OE: u32 = 0x134;
/// Offset of the input-level register.
pub const GPIO_DATAIN: u32 = 0x138;
/// Offset of the output-level register.
pub const GPIO_DATAOUT: u32 = 0x13C;
/// Offset of the raw interrupt-status register of line 0.
pub const GPIO_IRQSTATUS_RAW_0: u32 = 0x24;
/// Offset of the interrupt-status register of line 0 (write 1 to acknowledge).
pub const GPIO_IRQSTATUS_0: u32 = 0x2C;
/// Offset of the interrupt-enable-set register of line 0.
pub const GPIO_IRQSTATUS_SET0: u32 = 0x34;
/// Interrupt line of the first GPIO1 interrupt.
pub const GPIOINT1A: u32 = 98;

/// Direction of a pin.
#[derive(Clone, Copy, PartialEq, Eq, Structural)]
pub enum GpioMode {
    Input,
    Output,
}

/// The condition on which a pin raises its interrupt.
#[derive(Clone, Copy, PartialEq, Eq, Structural)]
pub enum GpioInterrupt {
    Level0,
    Level1,
    Rising,
    Falling,
}

/// Each detection condition has its own register, at the controller's
/// offsets: low level 0x140, high level 0x144, rising edge 0x148, falling
/// edge 0x14C; no two conditions share one.
pub proof fn law_detect_offsets(a: GpioInterrupt, b: GpioInterrupt)
    ensures
        detect_offset(a) == match a {
            GpioInterrupt::Level0 => 0x140u32,
            GpioInterrupt::Level1 => 0x144u32,
            GpioInterrupt::Rising => 0x148u32,
            GpioInterrupt::Falling => 0x14Cu32,
        },
        a != b ==> detect_offset(a) != detect_offset(b),
{
}

/// Offset of the detection register of each condition.
pub open spec fn detect_offset(interrupt: GpioInterrupt) -> u32 {
    match interrupt {
        GpioInterrupt::Level0 => 0x140,
        GpioInterrupt::Level1 => 0x144,
        GpioInterrupt::Rising => 0x148,
        GpioInterrupt::Falling => 0x14C,
    }
}

impl GpioInterrupt {
    /// Offset of the condition's detection register.
    pub fn offset(&self) -> (o: u32)
        ensures
            o == detect_offset(*self),
    {
        match self {
            GpioInterrupt::Level0 => 0x140,
            GpioInterrupt::Level1 => 0x144,
            GpioInterrupt::Rising => 0x148,
            GpioInterrupt::Falling => 0x14C,
        }
    }
}

/// `m` with bit `bit` of the GPIO1 register at `offset` set.
pub open spec fn gpio1_bit_set(m: Map<u32, u32>, offset: u32, bit: u32) -> Map<u32, u32> {
    m.insert((GPIO1 + offset) as u32, m[(GPIO1 + offset) as u32] | (1u32 << bit))
}

/// `m` with bit `bit` of the GPIO1 register at `offset` cleared.
pub open spec fn gpio1_bit_cleared(m: Map<u32, u32>, offset: u32, bit: u32) -> Map<u32, u32> {
    m.insert((GPIO1 + offset) as u32, m[(GPIO1 + offset) as u32] & !(1u32 << bit))
}

/// Makes GPIO1 pin `pin` an input (output-enable bit set) or an output (bit cleared).
pub fn pin_mode(regs: &mut RegisterFile, pin: u32, mode: GpioMode)
    requires
        pin < 32,
    ensures
        final(regs)@ == match mode {
            GpioMode::Input => gpio1_bit_set(old(regs)@, GPIO_OE, pin),
            GpioMode::Output => gpio1_bit_cleared(old(regs)@, GPIO_OE, pin),
        },
{
    match mode {
        GpioMode::Input => set_bit(regs, GPIO1 + GPIO_OE, pin),
        GpioMode::Output => clear_bit(regs, GPIO1 + GPIO_OE, pin),
    }
}

/// Drives GPIO1 pin `pin` high (`value` true) or low.
pub fn write(regs: &mut RegisterFile, pin: u32, value: bool)
    requires
        pin < 32,
    ensures
        final(regs)@ == if value {
            gpio1_bit_set(old(regs)@, GPIO_DATAOUT, pin)
        } else {
            gpio1_bit_cleared(old(regs)@, GPIO_DATAOUT, pin)
        },
{
    if value {
        set_bit(regs, GPIO1 + GPIO_DATAOUT, pin);
    } else {
        clear_bit(regs, GPIO1 + GPIO_DATAOUT, pin);
    }
}

/// Whether GPIO1 pin `pin` reads high.
pub fn read(regs: &RegisterFile, pin: u32) -> (high: bool)
    requires
        pin < 32,
    ensures
        high == bit_of(regs@[(GPIO1 + GPIO_DATAIN) as u32], pin),
{
    read_bit(regs, GPIO1 + GPIO_DATAIN, pin)
}

/// Switches the GPIO1 clock on and enables the GPIO1 interrupt line as an
/// IRQ of priority 0 (lines 96 to 127 are unmasked through the fourth bank).
pub fn initialize(regs: &mut RegisterFile)
    ensures
        ({
            let clocked = old(regs)@.insert((CM_PER + CM_PER_GPIO1_CLKCTRL) as u32, 2);
            let level = clocked.insert((INTC + INTC_ILR + 4 * GPIOINT1A) as u32, level_word(Mode::IRQ, 0));
            let clear = (INTC + 0xE4 + 4) as u32;
            final(regs)@ == level.insert(clear, level[clear] | (1u32 << (GPIOINT1A % 32)))
        }),
{
    write_addr(regs, CM_PER + CM_PER_GPIO1_CLKCTRL, 2);
    interrupts::enable_interrupt(regs, GPIOINT1A, Mode::IRQ, 0);
}

/// The interrupt handler of each GPIO1 pin, named by the number the caller
/// gave it (0 for none).
pub struct GpioHandlers {
    handlers: [usize; 32],
}

impl GpioHandlers {
    /// The handler of each pin.
    pub closed spec fn handlers(&self) -> Seq<usize> {
        self.handlers@
    }

    /// The table holds one handler per pin.
    pub proof fn lemma_len(&self)
        ensures
            self.handlers().len() == 32,
    {
    }

    /// A table with no handlers.
    pub fn new() -> (t: Self)
        ensures
            t.handlers() == Seq::new(32, |i: int| 0usize),
    {
        let handlers = [0usize; 32];
        assert(handlers@ =~= Seq::new(32, |i: int| 0usize));
        GpioHandlers { handlers }
    }

    /// The handler of pin `pin`.
    pub fn handler(&self, pin: u32) -> (h: usize)
        requires
            pin < 32,
        ensures
            h == self.handlers()[pin as int],
    {
        self.handlers[pin as usize]
    }
}

/// Records `handler` for GPIO1 pin `pin` and makes the pin raise its
/// interrupt on `interrupt`.
pub fn enable_interrupt(regs: &mut RegisterFile, table: &mut GpioHandlers, pin: u32, interrupt: GpioInterrupt, handler: usize)
    requires
        pin < 32,
    ensures
        final(table).handlers() == old(table).handlers().update(pin as int, handler),
        final(regs)@ == gpio1_bit_set(
            gpio1_bit_set(old(regs)@, GPIO_IRQSTATUS_SET0, pin),
            detect_offset(interrupt),
            pin,
        ),
{
    table.handlers[pin as usize] = handler;
    set_bit(regs, GPIO1 + GPIO_IRQSTATUS_SET0, pin);
    set_bit(regs, GPIO1 + interrupt.offset(), pin);
}

/// The pin whose interrupt is pending (the lowest set bit of the raw status)
/// and its handler; some interrupt is pending when this is called.
pub fn handle_interrupts(regs: &RegisterFile, table: &GpioHandlers) -> (r: (u32, usize))
    requires
        regs@[(GPIO1 + GPIO_IRQSTATUS_RAW_0) as u32] != 0,
    ensures
        r.0 < 32,
        bit_of(regs@[(GPIO1 + GPIO_IRQSTATUS_RAW_0) as u32], r.0),
        forall|j: u32| j < r.0 ==> !#[trigger] bit_of(regs@[(GPIO1 + GPIO_IRQSTATUS_RAW_0) as u32], j),
        r.1 == table.handlers()[r.0 as int],
{
    let raw = read_addr(regs, GPIO1 + GPIO_IRQSTATUS_RAW_0);
    let number = raw.trailing_zeros();
    proof {
        vstd::std_specs::bits::axiom_u32_trailing_zeros(raw);
        assert forall|j: u32| j < number implies !#[trigger] bit_of(raw, j) by {
            assert((raw >> j) & 1u32 == 0u32);
        }
    }
    (number, table.handler(number))
}

/// Acknowledges the interrupt of GPIO1 pin `pin`, once its handler has run.
pub fn acknowledge(regs: &mut RegisterFile, pin: u32)
    requires
        pin < 32,
    ensures
        final(regs)@ == old(regs)@.insert((GPIO1 + GPIO_IRQSTATUS_0) as u32, 1u32 << pin),
{
    write_addr(regs, GPIO1 + GPIO_IRQSTATUS_0, 1u32 << pin);
}

} // verus!
