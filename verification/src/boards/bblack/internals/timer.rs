use vstd::prelude::*;
use crate::sys::RegisterFile;
use crate::utils::wreg;
use crate::boards::bblack::clock::FuncClock;
use crate::boards::bblack::internals::interrupts::{
    Interrupt, INTC, INTC_SIR_IRQ, is_timer_line, line_enabled, line_of,
};
use crate::boards::bblack::internals::interrupts::Register as Controller;
use crate::internals::interrupts::InterruptRegister;

verus! {

/// Offset of a timer's interrupt-status register.
pub const TIMER_IRQSTATUS: u32 = 0x28;
/// Offset of a timer's interrupt-enable-set register.
pub const TIMER_IRQENABLE_SET: u32 = 0x2C;
/// Offset of a timer's control register.
pub const TIMER_CONTROL: u32 = 0x38;
/// Offset of a timer's counter register.
pub const TIMER_COUNTER: u32 = 0x3C;
/// Offset of a timer's reload register.
pub const TIMER_LOAD: u32 = 0x40;
/// Control word that starts a timer in auto-reload mode.
pub const TIMER_START: u32 = 0x3;
/// The overflow-interrupt bit of a timer's interrupt registers.
pub const TIMER_OVERFLOW: u32 = 0x2;

/// The general-purpose timers of the board.
#[derive(Clone, Copy, PartialEq, Eq, Structural)]
pub enum Timer {
    Timer2,
    Timer3,
    Timer4,
    Timer5,
    Timer6,
    Timer7,
}

/// Base address of each timer's registers.
pub open spec fn timer_address(t: Timer) -> u32 {
    match t {
        Timer::Timer2 => 0x4804_0000,
        Timer::Timer3 => 0x4804_2000,
        Timer::Timer4 => 0x4804_4000,
        Timer::Timer5 => 0x4804_6000,
        Timer::Timer6 => 0x4804_8000,
        Timer::Timer7 => 0x4804_A000,
    }
}

/// Position of each timer in the handler table.
pub open spec fn timer_index(t: Timer) -> int {
    match t {
        Timer::Timer2 => 0,
        Timer::Timer3 => 1,
        Timer::Timer4 => 2,
        Timer::Timer5 => 3,
        Timer::Timer6 => 4,
        Timer::Timer7 => 5,
    }
}

/// The interrupt line each timer raises.
pub open spec fn timer_interrupt(t: Timer) -> Interrupt {
    match t {
        Timer::Timer2 => Interrupt::TINT2,
        Timer::Timer3 => Interrupt::TINT3,
        Timer::Timer4 => Interrupt::TINT4,
        Timer::Timer5 => Interrupt::TINT5,
        Timer::Timer6 => Interrupt::TINT6,
        Timer::Timer7 => Interrupt::TINT7,
    }
}

/// The functional clock of each timer.
pub open spec fn timer_clock(t: Timer) -> FuncClock {
    match t {
        Timer::Timer2 => FuncClock::Timer2,
        Timer::Timer3 => FuncClock::Timer3,
        Timer::Timer4 => FuncClock::Timer4,
        Timer::Timer5 => FuncClock::Timer5,
        Timer::Timer6 => FuncClock::Timer6,
        Timer::Timer7 => FuncClock::Timer7,
    }
}

/// The timer that raises `i`.
pub open spec fn timer_of(i: Interrupt) -> Timer {
    match i {
        Interrupt::TINT2 => Timer::Timer2,
        Interrupt::TINT3 => Timer::Timer3,
        Interrupt::TINT4 => Timer::Timer4,
        Interrupt::TINT5 => Timer::Timer5,
        Interrupt::TINT6 => Timer::Timer6,
        Interrupt::TINT7 => Timer::Timer7,
    }
}

/// The register of timer `t` at `offset`.
pub open spec fn timer_register(t: Timer, offset: u32) -> u32 {
    (timer_address(t) + offset) as u32
}

/// The registers after `t` was loaded with `reload`, its overflow interrupt
/// enabled (at the timer and, as an IRQ of priority 0, at the controller) and
/// the timer started.
pub open spec fn timer_initialized(m: Map<u32, u32>, t: Timer, reload: u32) -> Map<u32, u32> {
    let clocked = m.insert(timer_clock(t).register_spec(), crate::boards::bblack::clock::CLOCK_ENABLE);
    let loaded = clocked.insert(timer_register(t, TIMER_LOAD), reload).insert(
        timer_register(t, TIMER_COUNTER),
        reload,
    );
    let armed = line_enabled(
        loaded.insert(timer_register(t, TIMER_IRQENABLE_SET), TIMER_OVERFLOW),
        timer_interrupt(t),
        0,
    );
    armed.insert(timer_register(t, TIMER_CONTROL), TIMER_START)
}

impl Timer {
    /// Base address of the timer's registers.
    pub fn address(&self) -> (a: u32)
        ensures
            a == timer_address(*self),
    {
        match self {
            Timer::Timer2 => 0x4804_0000,
            Timer::Timer3 => 0x4804_2000,
            Timer::Timer4 => 0x4804_4000,
            Timer::Timer5 => 0x4804_6000,
            Timer::Timer6 => 0x4804_8000,
            Timer::Timer7 => 0x4804_A000,
        }
    }

    /// Position of the timer in the handler table.
    pub fn index(&self) -> (i: usize)
        ensures
            i == timer_index(*self),
    {
        match self {
            Timer::Timer2 => 0,
            Timer::Timer3 => 1,
            Timer::Timer4 => 2,
            Timer::Timer5 => 3,
            Timer::Timer6 => 4,
            Timer::Timer7 => 5,
        }
    }

    /// The interrupt line the timer raises.
    pub fn interrupt(&self) -> (i: Interrupt)
        ensures
            i == timer_interrupt(*self),
    {
        match self {
            Timer::Timer2 => Interrupt::TINT2,
            Timer::Timer3 => Interrupt::TINT3,
            Timer::Timer4 => Interrupt::TINT4,
            Timer::Timer5 => Interrupt::TINT5,
            Timer::Timer6 => Interrupt::TINT6,
            Timer::Timer7 => Interrupt::TINT7,
        }
    }

    /// The timer's functional clock.
    pub fn clock(&self) -> (c: FuncClock)
        ensures
            c == timer_clock(*self),
    {
        match self {
            Timer::Timer2 => FuncClock::Timer2,
            Timer::Timer3 => FuncClock::Timer3,
            Timer::Timer4 => FuncClock::Timer4,
            Timer::Timer5 => FuncClock::Timer5,
            Timer::Timer6 => FuncClock::Timer6,
            Timer::Timer7 => FuncClock::Timer7,
        }
    }

    /// The timer that raises `interrupt`: every timer line belongs to a timer.
    pub fn from_interrupt(interrupt: Interrupt) -> (t: Timer)
        ensures
            t == timer_of(interrupt),
            timer_interrupt(t) == interrupt,
    {
        match interrupt {
            Interrupt::TINT2 => Timer::Timer2,
            Interrupt::TINT3 => Timer::Timer3,
            Interrupt::TINT4 => Timer::Timer4,
            Interrupt::TINT5 => Timer::Timer5,
            Interrupt::TINT6 => Timer::Timer6,
            Interrupt::TINT7 => Timer::Timer7,
        }
    }

    /// Switches the timer's functional clock on.
    pub fn init_clock(&self, regs: &mut RegisterFile)
        ensures
            final(regs)@ == old(regs)@.insert(
                timer_clock(*self).register_spec(),
                crate::boards::bblack::clock::CLOCK_ENABLE,
            ),
    {
        let clock = self.clock();
        clock.enable(regs);
    }

    /// Loads `reload` into the reload and counter registers.
    pub fn init_counter(&self, regs: &mut RegisterFile, reload: u32)
        ensures
            final(regs)@ == old(regs)@.insert(timer_register(*self, TIMER_LOAD), reload).insert(
                timer_register(*self, TIMER_COUNTER),
                reload,
            ),
    {
        wreg(regs, self.address() + TIMER_LOAD, reload);
        wreg(regs, self.address() + TIMER_COUNTER, reload);
    }

    /// Enables the overflow interrupt at the timer and at the controller.
    pub fn init_interrupt(&self, regs: &mut RegisterFile, controller: &Controller)
        ensures
            final(regs)@ == line_enabled(
                old(regs)@.insert(timer_register(*self, TIMER_IRQENABLE_SET), TIMER_OVERFLOW),
                timer_interrupt(*self),
                0,
            ),
    {
        self.irq_enable(regs);
        controller.enable(regs, self.interrupt(), 0);
    }

    /// Starts the timer in auto-reload mode.
    pub fn start(&self, regs: &mut RegisterFile)
        ensures
            final(regs)@ == old(regs)@.insert(timer_register(*self, TIMER_CONTROL), TIMER_START),
    {
        wreg(regs, self.address() + TIMER_CONTROL, TIMER_START);
    }

    /// Enables the overflow interrupt at the timer.
    pub fn irq_enable(&self, regs: &mut RegisterFile)
        ensures
            final(regs)@ == old(regs)@.insert(timer_register(*self, TIMER_IRQENABLE_SET), TIMER_OVERFLOW),
    {
        wreg(regs, self.address() + TIMER_IRQENABLE_SET, TIMER_OVERFLOW);
    }

    /// Acknowledges a pending overflow interrupt.
    pub fn irq_acknowledge(&self, regs: &mut RegisterFile)
        ensures
            final(regs)@ == old(regs)@.insert(timer_register(*self, TIMER_IRQSTATUS), TIMER_OVERFLOW),
    {
        wreg(regs, self.address() + TIMER_IRQSTATUS, TIMER_OVERFLOW);
    }

    /// Sets the timer up to overflow from `reload` and raise its interrupt, then starts it.
    pub fn init(&self, regs: &mut RegisterFile, controller: &Controller, reload: u32)
        ensures
            final(regs)@ == timer_initialized(old(regs)@, *self, reload),
    {
        self.init_clock(regs);
        self.init_counter(regs, reload);
        self.init_interrupt(regs, controller);
        self.start(regs);
    }
}

/// The timers' overflow handlers, each named by the number the caller gave it
/// (0 for none).
pub struct Register {
    handlers: [usize; 6],
}

impl Register {
    /// The handler of each timer, by position.
    pub closed spec fn handlers(&self) -> Seq<usize> {
        self.handlers@
    }

    /// A table with no handlers.
    pub fn new() -> (r: Self)
        ensures
            r.handlers() == Seq::new(6, |i: int| 0usize),
    {
        let handlers = [0usize; 6];
        assert(handlers@ =~= Seq::new(6, |i: int| 0usize));
        Register { handlers }
    }

    /// The table holds one handler per timer.
    pub proof fn lemma_len(&self)
        ensures
            self.handlers().len() == 6,
    {
    }

    /// Records `handler` for `timer` and sets the timer up with `reload`.
    pub fn register(
        &mut self,
        regs: &mut RegisterFile,
        controller: &Controller,
        timer: Timer,
        reload: u32,
        handler: usize,
    )
        ensures
            final(self).handlers() == old(self).handlers().update(timer_index(timer), handler),
            final(regs)@ == timer_initialized(old(regs)@, timer, reload),
    {
        let i = timer.index();
        self.handlers[i] = handler;
        timer.init(regs, controller, reload);
    }

    /// The timer whose interrupt is active.
    pub fn current_timer(regs: &RegisterFile, controller: &Controller) -> (t: Timer)
        requires
            is_timer_line(
                regs@[(INTC + INTC_SIR_IRQ) as u32] & 0x7F,
            ),
        ensures
            line_of(timer_interrupt(t)) == regs@[(INTC + INTC_SIR_IRQ) as u32] & 0x7F,
    {
        let interrupt = controller.current(regs);
        Timer::from_interrupt(interrupt)
    }

    /// The handler of the timer whose interrupt is active.
    pub fn current_handler(&self, regs: &RegisterFile, controller: &Controller) -> (h: usize)
        requires
            is_timer_line(
                regs@[(INTC + INTC_SIR_IRQ) as u32] & 0x7F,
            ),
        ensures
            exists|t: Timer|
                #![trigger timer_index(t)]
                line_of(timer_interrupt(t)) == regs@[(INTC + INTC_SIR_IRQ) as u32] & 0x7F
                    && h == self.handlers()[timer_index(t)],
    {
        let timer = Register::current_timer(regs, controller);
        let h = self.handlers[timer.index()];
        assert(h == self.handlers()[timer_index(timer)]);
        h
    }

    /// Acknowledges the overflow of the timer whose interrupt is active, and
    /// names that timer; the caller runs its handler first.
    pub fn interrupt_handler(&self, regs: &mut RegisterFile, controller: &Controller) -> (t: Timer)
        requires
            is_timer_line(old(regs)@[(INTC + INTC_SIR_IRQ) as u32] & 0x7F),
        ensures
            line_of(timer_interrupt(t)) == old(regs)@[(INTC + INTC_SIR_IRQ) as u32] & 0x7F,
            final(regs)@ == old(regs)@.insert(timer_register(t, TIMER_IRQSTATUS), TIMER_OVERFLOW),
    {
        let timer = Register::current_timer(regs, controller);
        timer.irq_acknowledge(regs);
        timer
    }
}

impl Default for Register {
    fn default() -> (r: Self)
        ensures
            r.handlers() == Seq::new(6, |i: int| 0usize),
    {
        Register::new()
    }
}

} // verus!
