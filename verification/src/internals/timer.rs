use vstd::prelude::*;
use crate::sys::RegisterFile;
use crate::utils::wreg;
use crate::boards::bblack::clock::{CLOCK_ENABLE, FuncClock};
use crate::boards::bblack::internals::interrupts::{Interrupt, line_enabled};
use crate::boards::bblack::internals::interrupts::Register as Controller;
use crate::internals::interrupts::InterruptRegister;
use crate::boards::bblack::internals::timer::{
    timer_address, TIMER_CONTROL, TIMER_COUNTER, TIMER_IRQENABLE_SET, TIMER_IRQSTATUS, TIMER_LOAD,
    TIMER_OVERFLOW, TIMER_START,
};

verus! {

/// Offset of a timer's interrupt-enable-clear register.
pub const TIMER_IRQENABLE_CLR: u32 = 0x30;

/// The general-purpose timers, numbered as the board numbers them.
#[derive(Clone, Copy, PartialEq, Eq, Structural)]
pub enum DmTimer {
    Timer2,
    Timer3,
    Timer4,
    Timer5,
    Timer6,
    Timer7,
}

/// The board's number of each timer, which is also its slot in the registry.
pub open spec fn dm_number(t: DmTimer) -> int {
    match t {
        DmTimer::Timer2 => 2,
        DmTimer::Timer3 => 3,
        DmTimer::Timer4 => 4,
        DmTimer::Timer5 => 5,
        DmTimer::Timer6 => 6,
        DmTimer::Timer7 => 7,
    }
}

/// The same timer as the board layer names it.
pub open spec fn board_timer(t: DmTimer) -> crate::boards::bblack::internals::timer::Timer {
    match t {
        DmTimer::Timer2 => crate::boards::bblack::internals::timer::Timer::Timer2,
        DmTimer::Timer3 => crate::boards::bblack::internals::timer::Timer::Timer3,
        DmTimer::Timer4 => crate::boards::bblack::internals::timer::Timer::Timer4,
        DmTimer::Timer5 => crate::boards::bblack::internals::timer::Timer::Timer5,
        DmTimer::Timer6 => crate::boards::bblack::internals::timer::Timer::Timer6,
        DmTimer::Timer7 => crate::boards::bblack::internals::timer::Timer::Timer7,
    }
}

/// The interrupt line each timer raises.
pub open spec fn dm_interrupt(t: DmTimer) -> Interrupt {
    match t {
        DmTimer::Timer2 => Interrupt::TINT2,
        DmTimer::Timer3 => Interrupt::TINT3,
        DmTimer::Timer4 => Interrupt::TINT4,
        DmTimer::Timer5 => Interrupt::TINT5,
        DmTimer::Timer6 => Interrupt::TINT6,
        DmTimer::Timer7 => Interrupt::TINT7,
    }
}

/// The functional clock of each timer.
pub open spec fn dm_clock(t: DmTimer) -> FuncClock {
    match t {
        DmTimer::Timer2 => FuncClock::Timer2,
        DmTimer::Timer3 => FuncClock::Timer3,
        DmTimer::Timer4 => FuncClock::Timer4,
        DmTimer::Timer5 => FuncClock::Timer5,
        DmTimer::Timer6 => FuncClock::Timer6,
        DmTimer::Timer7 => FuncClock::Timer7,
    }
}

/// The register of timer `t` at `offset`.
pub open spec fn dm_register(t: DmTimer, offset: u32) -> u32 {
    (timer_address(board_timer(t)) + offset) as u32
}

impl DmTimer {
    /// The timer that raises `interrupt`; every timer line has one.
    pub fn try_new(interrupt: Interrupt) -> (t: Option<DmTimer>)
        ensures
            t is Some,
            dm_interrupt(t->0) == interrupt,
    {
        match interrupt {
            Interrupt::TINT2 => Some(DmTimer::Timer2),
            Interrupt::TINT3 => Some(DmTimer::Timer3),
            Interrupt::TINT4 => Some(DmTimer::Timer4),
            Interrupt::TINT5 => Some(DmTimer::Timer5),
            Interrupt::TINT6 => Some(DmTimer::Timer6),
            Interrupt::TINT7 => Some(DmTimer::Timer7),
        }
    }

    /// The timer's functional clock.
    pub fn clock(&self) -> (c: FuncClock)
        ensures
            c == dm_clock(*self),
    {
        match self {
            DmTimer::Timer2 => FuncClock::Timer2,
            DmTimer::Timer3 => FuncClock::Timer3,
            DmTimer::Timer4 => FuncClock::Timer4,
            DmTimer::Timer5 => FuncClock::Timer5,
            DmTimer::Timer6 => FuncClock::Timer6,
            DmTimer::Timer7 => FuncClock::Timer7,
        }
    }

    /// Base address of the timer's registers.
    pub fn address(&self) -> (a: u32)
        ensures
            a == timer_address(board_timer(*self)),
    {
        match self {
            DmTimer::Timer2 => 0x4804_0000,
            DmTimer::Timer3 => 0x4804_2000,
            DmTimer::Timer4 => 0x4804_4000,
            DmTimer::Timer5 => 0x4804_6000,
            DmTimer::Timer6 => 0x4804_8000,
            DmTimer::Timer7 => 0x4804_A000,
        }
    }

    /// The interrupt line the timer raises.
    pub fn interrupt(&self) -> (i: Interrupt)
        ensures
            i == dm_interrupt(*self),
    {
        match self {
            DmTimer::Timer2 => Interrupt::TINT2,
            DmTimer::Timer3 => Interrupt::TINT3,
            DmTimer::Timer4 => Interrupt::TINT4,
            DmTimer::Timer5 => Interrupt::TINT5,
            DmTimer::Timer6 => Interrupt::TINT6,
            DmTimer::Timer7 => Interrupt::TINT7,
        }
    }

    /// The board's number of the timer.
    pub fn number(&self) -> (n: usize)
        ensures
            n == dm_number(*self),
    {
        match self {
            DmTimer::Timer2 => 2,
            DmTimer::Timer3 => 3,
            DmTimer::Timer4 => 4,
            DmTimer::Timer5 => 5,
            DmTimer::Timer6 => 6,
            DmTimer::Timer7 => 7,
        }
    }
}

/// The registers after timer `t` was set up to overflow from `reload`: clocked,
/// loaded, its overflow interrupt enabled at the timer and as a priority-0 IRQ
/// at the controller, and started.
pub open spec fn dm_initialized(m: Map<u32, u32>, t: DmTimer, reload: u32) -> Map<u32, u32> {
    let clocked = m.insert(dm_clock(t).register_spec(), CLOCK_ENABLE);
    let loaded = clocked.insert(dm_register(t, TIMER_LOAD), reload).insert(dm_register(t, TIMER_COUNTER), reload);
    let armed = line_enabled(
        loaded.insert(dm_register(t, TIMER_IRQENABLE_SET), TIMER_OVERFLOW),
        dm_interrupt(t),
        0,
    );
    armed.insert(dm_register(t, TIMER_CONTROL), TIMER_START)
}

/// A running timer: which one, the count it reloads from, and the handler
/// (named by the number the caller gave it) that its overflow runs.
#[derive(Clone, Copy, PartialEq, Eq, Structural)]
pub struct Timer {
    pub timer: DmTimer,
    pub reload: u32,
    pub handler: usize,
}

impl Timer {
    /// Sets `timer` up to overflow from `reload` and starts it.
    pub fn new(
        regs: &mut RegisterFile,
        controller: &Controller,
        timer: DmTimer,
        reload: u32,
        handler: usize,
    ) -> (t: Timer)
        ensures
            t == (Timer { timer, reload, handler }),
            final(regs)@ == dm_initialized(old(regs)@, timer, reload),
    {
        let t = Timer { timer, reload, handler };
        t.init_clock(regs);
        t.init_counter(regs);
        t.init_interrupt(regs, controller);
        t.start(regs);
        t
    }

    /// Switches the timer's functional clock on.
    pub fn init_clock(&self, regs: &mut RegisterFile)
        ensures
            final(regs)@ == old(regs)@.insert(dm_clock(self.timer).register_spec(), CLOCK_ENABLE),
    {
        self.timer.clock().enable(regs);
    }

    /// Loads the reload count into the reload and counter registers.
    pub fn init_counter(&self, regs: &mut RegisterFile)
        ensures
            final(regs)@ == old(regs)@.insert(dm_register(self.timer, TIMER_LOAD), self.reload).insert(
                dm_register(self.timer, TIMER_COUNTER),
                self.reload,
            ),
    {
        wreg(regs, self.timer.address() + TIMER_LOAD, self.reload);
        wreg(regs, self.timer.address() + TIMER_COUNTER, self.reload);
    }

    /// Enables the overflow interrupt at the timer and at the controller.
    pub fn init_interrupt(&self, regs: &mut RegisterFile, controller: &Controller)
        ensures
            final(regs)@ == line_enabled(
                old(regs)@.insert(dm_register(self.timer, TIMER_IRQENABLE_SET), TIMER_OVERFLOW),
                dm_interrupt(self.timer),
                0,
            ),
    {
        self.irq_enable(regs);
        controller.enable(regs, self.timer.interrupt(), 0);
    }

    /// Starts the timer in auto-reload mode.
    pub fn start(&self, regs: &mut RegisterFile)
        ensures
            final(regs)@ == old(regs)@.insert(dm_register(self.timer, TIMER_CONTROL), TIMER_START),
    {
        wreg(regs, self.timer.address() + TIMER_CONTROL, TIMER_START);
    }

    /// Enables the overflow interrupt at the timer.
    pub fn irq_enable(&self, regs: &mut RegisterFile)
        ensures
            final(regs)@ == old(regs)@.insert(dm_register(self.timer, TIMER_IRQENABLE_SET), TIMER_OVERFLOW),
    {
        wreg(regs, self.timer.address() + TIMER_IRQENABLE_SET, TIMER_OVERFLOW);
    }

    /// Disables the overflow interrupt at the timer.
    pub fn irq_disable(&self, regs: &mut RegisterFile)
        ensures
            final(regs)@ == old(regs)@.insert(dm_register(self.timer, TIMER_IRQENABLE_CLR), TIMER_OVERFLOW),
    {
        wreg(regs, self.timer.address() + TIMER_IRQENABLE_CLR, TIMER_OVERFLOW);
    }

    /// Acknowledges a pending overflow.
    pub fn irq_acknowledge(&self, regs: &mut RegisterFile)
        ensures
            final(regs)@ == old(regs)@.insert(dm_register(self.timer, TIMER_IRQSTATUS), TIMER_OVERFLOW),
    {
        wreg(regs, self.timer.address() + TIMER_IRQSTATUS, TIMER_OVERFLOW);
    }

    /// First half of an overflow: masks and acknowledges the interrupt and
    /// names the handler to run; `finish_irq` follows the handler.
    pub fn begin_irq(&self, regs: &mut RegisterFile) -> (h: usize)
        ensures
            h == self.handler,
            final(regs)@ == old(regs)@.insert(dm_register(self.timer, TIMER_IRQENABLE_CLR), TIMER_OVERFLOW).insert(
                dm_register(self.timer, TIMER_IRQSTATUS),
                TIMER_OVERFLOW,
            ),
    {
        self.irq_disable(regs);
        self.irq_acknowledge(regs);
        self.handler
    }

    /// Second half of an overflow: unmasks the interrupt again.
    pub fn finish_irq(&self, regs: &mut RegisterFile)
        ensures
            final(regs)@ == old(regs)@.insert(dm_register(self.timer, TIMER_IRQENABLE_SET), TIMER_OVERFLOW),
    {
        self.irq_enable(regs);
    }
}

/// The running timers, by the board's timer number (slots 0 and 1 stay empty).
pub struct Timers {
    slots: Vec<Option<Timer>>,
}

impl Timers {
    /// The timer in each slot.
    pub closed spec fn slots(&self) -> Seq<Option<Timer>> {
        self.slots@
    }

    /// Whether the registry has its seven slots.
    pub open spec fn wf(&self) -> bool {
        self.slots().len() == 7
    }

    /// A registry with no timer running.
    pub fn new() -> (r: Self)
        ensures
            r.wf(),
            r.slots() == Seq::new(7, |i: int| None::<Timer>),
    {
        let mut slots: Vec<Option<Timer>> = Vec::new();
        let mut i: usize = 0;
        while i < 7
            invariant
                i <= 7,
                slots@ == Seq::new(i as nat, |k: int| None::<Timer>),
            decreases 7 - i,
        {
            slots.push(None);
            i = i + 1;
        }
        Timers { slots }
    }

    /// Starts `dm_timer` with `reload` and `handler` and records it, replacing
    /// any timer that held its slot. The registry has slots 0 to 6 only, so
    /// timer 7 cannot be registered.
    pub fn register_timer(
        &mut self,
        regs: &mut RegisterFile,
        controller: &Controller,
        dm_timer: DmTimer,
        reload: u32,
        handler: usize,
    )
        requires
            old(self).wf(),
            dm_timer != DmTimer::Timer7,
        ensures
            final(self).wf(),
            final(self).slots() == old(self).slots().update(
                dm_number(dm_timer),
                Some(Timer { timer: dm_timer, reload, handler }),
            ),
            final(regs)@ == dm_initialized(old(regs)@, dm_timer, reload),
    {
        let timer = Timer::new(regs, controller, dm_timer, reload, handler);
        let n = dm_timer.number();
        self.slots.set(n, Some(timer));
    }

    /// The timer that raises `interrupt`, if it was registered; the line of
    /// timer 7 has no slot to look in.
    pub fn get_timer(&self, interrupt: Interrupt) -> (t: Option<Timer>)
        requires
            self.wf(),
            interrupt != Interrupt::TINT7,
        ensures
            exists|d: DmTimer| #[trigger] dm_interrupt(d) == interrupt && t == self.slots()[dm_number(d)],
    {
        let dm_timer = match DmTimer::try_new(interrupt) {
            Some(dm_timer) => dm_timer,
            None => return None,
        };
        let t = self.slots[dm_timer.number()];
        assert(dm_interrupt(dm_timer) == interrupt);
        t
    }
}

} // verus!
