use vstd::prelude::*;
use crate::sys::RegisterFile;
use crate::boards::bblack::internals::interrupts::Register as Controller;
use crate::internals::timer::{dm_initialized, dm_number, DmTimer, Timer, Timers};

verus! {

/// Every how many ticks the running task is made to yield.
pub const YIELD_INTERVAL: u32 = 10;

/// The reload count of the millisecond timer.
pub const MILLIS_RELOAD: u32 = 0xFFFF_FFE0;

/// The number by which the millisecond handler is registered.
pub const MILLIS_HANDLER: usize = 1;

/// Starts the millisecond tick: timer 2, reloading from `MILLIS_RELOAD`, runs
/// the millisecond handler.
pub fn initialize(regs: &mut RegisterFile, controller: &Controller, timers: &mut Timers)
    requires
        old(timers).wf(),
    ensures
        final(timers).wf(),
        final(timers).slots() == old(timers).slots().update(
            dm_number(DmTimer::Timer2),
            Some(Timer { timer: DmTimer::Timer2, reload: MILLIS_RELOAD, handler: MILLIS_HANDLER }),
        ),
        final(regs)@ == dm_initialized(old(regs)@, DmTimer::Timer2, MILLIS_RELOAD),
{
    timers.register_timer(regs, controller, DmTimer::Timer2, MILLIS_RELOAD, MILLIS_HANDLER);
}

/// The kernel's millisecond counter, advanced by the timer interrupt.
pub struct Sysclock {
    ticks: u32,
}

impl Sysclock {
    /// The number of ticks counted.
    pub closed spec fn ticks_spec(&self) -> u32 {
        self.ticks
    }

    /// A counter at 0.
    pub fn new() -> (c: Self)
        ensures
            c.ticks_spec() == 0,
    {
        Sysclock { ticks: 0 }
    }

    /// Milliseconds since the counter started.
    pub fn millis(&self) -> (m: u32)
        ensures
            m == self.ticks_spec(),
    {
        self.ticks
    }

    /// One timer tick: counts it, and says whether the running task must yield
    /// now (every `YIELD_INTERVAL` ticks).
    pub fn interrupt_handler(&mut self) -> (yield_now: bool)
        requires
            old(self).ticks_spec() < u32::MAX,
        ensures
            final(self).ticks_spec() == old(self).ticks_spec() + 1,
            yield_now == (final(self).ticks_spec() % YIELD_INTERVAL == 0),
    {
        self.ticks = self.ticks + 1;
        self.ticks % YIELD_INTERVAL == 0
    }
}

} // verus!
