use vstd::prelude::*;
use crate::sys::{RegisterFile, INTC, read_addr, set_bit, write_addr};

verus! {

/// Offset of the first interrupt-level register.
pub const INTC_ILR: u32 = 0x100;
/// Offset of the register naming the active IRQ.
pub const INTC_SIR_IRQ: u32 = 0x40;
/// Offset of the control register.
pub const INTC_CONTROL: u32 = 0x48;

/// How an interrupt line is delivered to the processor.
#[derive(Clone, Copy, PartialEq, Eq, Structural)]
pub enum Mode {
    IRQ,
    FIQ,
}

/// The four banks of 32 interrupt lines, each with its own mask registers.
#[derive(Clone, Copy, PartialEq, Eq, Structural)]
pub enum InterruptBank {
    Int0,
    Int1,
    Int2,
    Int3,
}

/// The bank of interrupt line `n`, if there is such a line.
pub open spec fn bank_of(n: u32) -> Option<InterruptBank> {
    if n < 32 {
        Some(InterruptBank::Int0)
    } else if n < 64 {
        Some(InterruptBank::Int1)
    } else if n < 96 {
        Some(InterruptBank::Int2)
    } else if n < 128 {
        Some(InterruptBank::Int3)
    } else {
        None
    }
}

impl InterruptBank {
    /// Offset of the bank's mask register.
    pub open spec fn mir_spec(self) -> u32 {
        match self {
            InterruptBank::Int0 => 0x84,
            InterruptBank::Int1 => 0xA4,
            InterruptBank::Int2 => 0xC4,
            InterruptBank::Int3 => 0xE4,
        }
    }

    /// The bank of interrupt line `n`; `None` past the last line (127).
    pub fn new(n: u32) -> (r: Option<InterruptBank>)
        ensures
            r == bank_of(n),
    {
        if n < 32 {
            Some(InterruptBank::Int0)
        } else if n < 64 {
            Some(InterruptBank::Int1)
        } else if n < 96 {
            Some(InterruptBank::Int2)
        } else if n < 128 {
            Some(InterruptBank::Int3)
        } else {
            None
        }
    }

    /// Offset of the bank's mask register.
    pub fn get_mir(&self) -> (r: u32)
        ensures
            r == self.mir_spec(),
    {
        match self {
            InterruptBank::Int0 => 0x84,
            InterruptBank::Int1 => 0xA4,
            InterruptBank::Int2 => 0xC4,
            InterruptBank::Int3 => 0xE4,
        }
    }
}

/// Nothing to set up before lines are enabled one by one.
pub fn initialize() {
}

/// The interrupt-level word: the FIQ bit and the priority at bit 2 (of a byte).
pub open spec fn level_word(mode: Mode, priority: u8) -> u32 {
    (match mode {
        Mode::IRQ => 0u32,
        Mode::FIQ => 1u32,
    }) | (((priority as u32) << 2) & 0xFF)
}

/// Enables interrupt line `n`: writes its level register (mode and priority)
/// and unmasks it in its bank (the mask-clear register, at the mask register
/// + 4; the line's bit within the bank). Lines past 127 are left alone.
pub fn enable_interrupt(regs: &mut RegisterFile, n: u32, mode: Mode, priority: u8)
    requires
        INTC + INTC_ILR + 4 * n <= u32::MAX,
    ensures
        match bank_of(n) {
            None => final(regs)@ == old(regs)@,
            Some(bank) => {
                let level = old(regs)@.insert((INTC + INTC_ILR + 4 * n) as u32, level_word(mode, priority));
                let clear = (INTC + bank.mir_spec() + 4) as u32;
                final(regs)@ == level.insert(clear, level[clear] | (1u32 << (n % 32)))
            },
        },
{
    let address = INTC + INTC_ILR + (4 * n);
    let enable_fiq: u32 = match mode {
        Mode::IRQ => 0,
        Mode::FIQ => 1,
    };
    let bank = match InterruptBank::new(n) {
        Some(bank) => bank,
        None => return,
    };
    let shifted = ((priority as u32) << 2) & 0xFF;
    write_addr(regs, address, enable_fiq | shifted);
    set_bit(regs, INTC + bank.get_mir() + 4, n % 32);
}

/// An interrupt line number.
#[derive(Clone, Copy, PartialEq, Eq, Structural)]
pub struct Interrupt {
    pub number: u8,
}

impl Interrupt {
    /// The active IRQ: the low 7 bits of the active-IRQ register.
    pub fn get_current(regs: &RegisterFile) -> (i: Self)
        ensures
            i.number == regs@[(INTC + INTC_SIR_IRQ) as u32] & 0x7F,
    {
        let value = read_addr(regs, INTC + INTC_SIR_IRQ);
        let number = value & 0x7F;
        assert(number < 128) by (bit_vector) requires number == value & 0x7F;
        Interrupt { number: number as u8 }
    }

    /// Acknowledges the interrupt: lets the controller deliver new IRQs and FIQs.
    pub fn clear(self, regs: &mut RegisterFile)
        ensures
            final(regs)@ == old(regs)@.insert((INTC + INTC_CONTROL) as u32, 0x3),
    {
        write_addr(regs, INTC + INTC_CONTROL, 0x3);
    }
}

} // verus!
