use vstd::prelude::*;
use crate::sys::RegisterFile;
use crate::boards::bblack::internals::interrupts::Register as Controller;
use crate::internals::interrupts::InterruptRegister;
use crate::internals::timer::{dm_initialized, dm_number, DmTimer, Timer, Timers};

verus! {

/// The reload count of the tick timer.
pub const TICK_RELOAD: u32 = 1000;

/// The number by which the tick handler is registered.
pub const TICK_HANDLER: usize = 1;

/// The tick counter, advanced by the timer interrupt.
pub struct Sysclock {
    ticks: u32,
}

impl Sysclock {
    /// The number of ticks counted.
    pub closed spec fn count(&self) -> u32 {
        self.ticks
    }

    /// A counter at 0.
    pub fn new() -> (c: Self)
        ensures
            c.count() == 0,
    {
        Sysclock { ticks: 0 }
    }

    /// The number of ticks counted.
    pub fn ticks(&self) -> (t: u32)
        ensures
            t == self.count(),
    {
        self.ticks
    }

    /// One timer tick.
    pub fn irq_handler(&mut self)
        requires
            old(self).count() < u32::MAX,
        ensures
            final(self).count() == old(self).count() + 1,
    {
        self.ticks = self.ticks + 1;
    }
}

impl Default for Sysclock {
    fn default() -> (c: Self)
        ensures
            c.count() == 0,
    {
        Sysclock::new()
    }
}

/// Starts the tick: timer 2, reloading from `TICK_RELOAD`, runs the tick handler.
pub fn init(regs: &mut RegisterFile, controller: &Controller, timers: &mut Timers)
    requires
        old(timers).wf(),
    ensures
        final(timers).wf(),
        final(timers).slots() == old(timers).slots().update(
            dm_number(DmTimer::Timer2),
            Some(Timer { timer: DmTimer::Timer2, reload: TICK_RELOAD, handler: TICK_HANDLER }),
        ),
        final(regs)@ == dm_initialized(old(regs)@, DmTimer::Timer2, TICK_RELOAD),
{
    timers.register_timer(regs, controller, DmTimer::Timer2, TICK_RELOAD, TICK_HANDLER);
}

/// The ticks counted by `clock`.
pub fn ticks(clock: &Sysclock) -> (t: u32)
    ensures
        t == clock.count(),
{
    clock.ticks()
}

/// Whether a wait of `ms` ticks that began when the counter read `start` is
/// over when it reads `now`; the counter may have wrapped around meanwhile.
pub fn wait(start: u32, now: u32, ms: u32) -> (over: bool)
    ensures
        over == ((now - start) % 0x1_0000_0000 >= ms),
{
    let elapsed = now.wrapping_sub(start);
    assert(elapsed == (now - start) % 0x1_0000_0000) by (nonlinear_arith)
        requires
            elapsed == (if now >= start { now - start } else { now - start + 0x1_0000_0000 }),
            0 <= now < 0x1_0000_0000,
            0 <= start < 0x1_0000_0000,
    ;
    elapsed >= ms
}

} // verus!
