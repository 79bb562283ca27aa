use vstd::prelude::*;
use crate::sys::{RegisterFile, bit_of};
use crate::utils::{rreg, wbit, wreg};
use crate::internals::interrupts::InterruptRegister;

verus! {

/// Base address of the interrupt controller.
pub const INTC: u32 = 0x4820_0000;
/// Offset of the first interrupt-level register.
pub const INTC_ILR: u32 = 0x100;
/// Offset of the register naming the active IRQ.
pub const INTC_SIR_IRQ: u32 = 0x40;
/// Offset of the control register.
pub const INTC_CONTROL: u32 = 0x48;
/// Offset of a bank's mask-clear register from its mask register.
pub const MIR_CLR_OFFSET: u32 = 0x4;

/// The interrupt lines of the timers.
#[derive(Clone, Copy, PartialEq, Eq, Structural)]
pub enum Interrupt {
    TINT2,
    TINT3,
    TINT4,
    TINT5,
    TINT6,
    TINT7,
}

/// The line number of each timer interrupt.
pub open spec fn line_of(i: Interrupt) -> u32 {
    match i {
        Interrupt::TINT2 => 68,
        Interrupt::TINT3 => 69,
        Interrupt::TINT4 => 92,
        Interrupt::TINT5 => 93,
        Interrupt::TINT6 => 94,
        Interrupt::TINT7 => 95,
    }
}

/// Whether `num` is the line of a timer interrupt.
pub open spec fn is_timer_line(num: u32) -> bool {
    num == 68 || num == 69 || num == 92 || num == 93 || num == 94 || num == 95
}

impl Interrupt {
    /// The timer interrupt on line `num`.
    pub fn new(num: u32) -> (i: Self)
        requires
            is_timer_line(num),
        ensures
            line_of(i) == num,
    {
        match num {
            68 => Interrupt::TINT2,
            69 => Interrupt::TINT3,
            92 => Interrupt::TINT4,
            93 => Interrupt::TINT5,
            94 => Interrupt::TINT6,
            _ => Interrupt::TINT7,
        }
    }

    /// The interrupt's line number.
    pub fn number(&self) -> (n: u32)
        ensures
            n == line_of(*self),
    {
        match self {
            Interrupt::TINT2 => 68,
            Interrupt::TINT3 => 69,
            Interrupt::TINT4 => 92,
            Interrupt::TINT5 => 93,
            Interrupt::TINT6 => 94,
            Interrupt::TINT7 => 95,
        }
    }
}

/// How a line is delivered.
#[derive(Clone, Copy, PartialEq, Eq, Structural)]
pub enum Mode {
    IRQ,
    FIQ,
}

/// The four banks of 32 lines.
#[derive(Clone, Copy, PartialEq, Eq, Structural)]
pub enum InterruptBank {
    Int0,
    Int1,
    Int2,
    Int3,
}

impl InterruptBank {
    /// Offset of the bank's mask register.
    pub open spec fn mir_spec(self) -> u32 {
        match self {
            InterruptBank::Int0 => 0x84,
            InterruptBank::Int1 => 0xA4,
            InterruptBank::Int2 => 0xC4,
            InterruptBank::Int3 => 0xE4,
        }
    }

    /// The bank of line `n`; `None` past line 127.
    pub fn new(n: u32) -> (r: Option<InterruptBank>)
        ensures
            r == (if n < 32 {
                Some(InterruptBank::Int0)
            } else if n < 64 {
                Some(InterruptBank::Int1)
            } else if n < 96 {
                Some(InterruptBank::Int2)
            } else if n < 128 {
                Some(InterruptBank::Int3)
            } else {
                None::<InterruptBank>
            }),
    {
        if n < 32 {
            Some(InterruptBank::Int0)
        } else if n < 64 {
            Some(InterruptBank::Int1)
        } else if n < 96 {
            Some(InterruptBank::Int2)
        } else if n < 128 {
            Some(InterruptBank::Int3)
        } else {
            None
        }
    }

    /// Offset of the bank's mask register.
    pub fn get_mir(&self) -> (r: u32)
        ensures
            r == self.mir_spec(),
    {
        match self {
            InterruptBank::Int0 => 0x84,
            InterruptBank::Int1 => 0xA4,
            InterruptBank::Int2 => 0xC4,
            InterruptBank::Int3 => 0xE4,
        }
    }
}

/// The registers after enabling the timer line `interrupt` as an IRQ with `priority`.
pub open spec fn line_enabled(m: Map<u32, u32>, interrupt: Interrupt, priority: u8) -> Map<u32, u32> {
    let n = line_of(interrupt);
    let level = m.insert((INTC + INTC_ILR + 4 * n) as u32, ((priority as u32) << 2) & 0xFF);
    // every timer line lies in the third bank, lines 64 to 95
    let clear = (INTC + 0xC4u32 + MIR_CLR_OFFSET) as u32;
    level.insert(clear, level[clear] | (1u32 << (n % 32)))
}

/// The interrupt controller, with the handler of each line, named by the
/// number the caller gave it (0 for none).
pub struct Register {
    handlers: [usize; 128],
}

impl Register {
    /// The handler of each line, by line number.
    pub closed spec fn handlers(&self) -> Seq<usize> {
        self.handlers@
    }

    /// The table holds one handler per line.
    pub proof fn lemma_len(&self)
        ensures
            self.handlers().len() == 128,
    {
    }

    /// The controller, with no handlers.
    pub fn new() -> (r: Self)
        ensures
            r.handlers() == Seq::new(128, |i: int| 0usize),
    {
        let handlers = [0usize; 128];
        assert(handlers@ =~= Seq::new(128, |i: int| 0usize));
        Register { handlers }
    }

    /// The handler recorded for the line of `interrupt`.
    pub fn execute(&self, interrupt: Interrupt) -> (h: usize)
        ensures
            h == self.handlers()[line_of(interrupt) as int],
    {
        let n = interrupt.number();
        self.handlers[n as usize]
    }

    /// Acknowledges the active IRQ so the controller can deliver the next one.
    pub fn clear(&self, regs: &mut RegisterFile)
        ensures
            final(regs)@ == old(regs)@.insert((INTC + INTC_CONTROL) as u32, 0x1),
    {
        wreg(regs, INTC + INTC_CONTROL, 0x1);
    }
}

impl InterruptRegister for Register {
    /// Records `handler` for the line of `interrupt`.
    fn register_handler(&mut self, interrupt: Interrupt, handler: usize)
        ensures
            final(self).handlers() == old(self).handlers().update(line_of(interrupt) as int, handler),
    {
        let n = interrupt.number();
        self.handlers[n as usize] = handler;
    }

    /// Enables the line of `interrupt` as an IRQ with `priority`: writes its
    /// level register and unmasks its bit in its bank.
    fn enable(&self, regs: &mut RegisterFile, interrupt: Interrupt, priority: u8)
        ensures
            final(regs)@ == line_enabled(old(regs)@, interrupt, priority),
    {
        let interrupt_number = interrupt.number();
        let addr = INTC + INTC_ILR + (4 * interrupt_number);
        let bank = match InterruptBank::new(interrupt_number) {
            Some(bank) => bank,
            None => return,
        };
        let mode: u32 = 0;
        wreg(regs, addr, mode | (((priority as u32) << 2) & 0xFF));
        assert((0u32 | (((priority as u32) << 2) & 0xFF)) == (((priority as u32) << 2) & 0xFF)) by (bit_vector);
        wbit(regs, INTC + bank.get_mir() + MIR_CLR_OFFSET, interrupt_number % 32, true);
    }

    /// The active timer interrupt (the low 7 bits of the active-IRQ register name its line).
    fn current(&self, regs: &RegisterFile) -> (i: Interrupt)
        ensures
            line_of(i) == regs@[(INTC + INTC_SIR_IRQ) as u32] & 0x7F,
    {
        let num = rreg(regs, INTC + INTC_SIR_IRQ) & 0x7F;
        Interrupt::new(num)
    }
}

} // verus!
