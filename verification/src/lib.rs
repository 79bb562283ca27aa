use vstd::prelude::*;
use crate::sys::RegisterFile;
use crate::boards::bblack::internals::interrupts::Register as Controller;
use crate::boards::bblack::peripherals::gpio::gpio_initialized;
use crate::internals::sysclock::TICK_RELOAD;
use crate::internals::timer::{dm_initialized, DmTimer, Timers};
use crate::tasks::scheduler::{MAX_TASKS, TaskManager};
use crate::tasks::task::{Task, TaskState, TASK_STACK_SIZE};

pub mod boards;
pub mod clock;
pub mod interfaces;
pub mod internals;
pub mod interrupts;
pub mod kernel;
pub mod laws;
pub mod libfenix;
pub mod memory;
pub mod peripherals;
pub mod shared;
pub mod sys;
pub mod tasks;
pub mod utils;

verus! {

/// The priority of the idle task: the lowest there is.
pub const IDLE_PRIORITY: u8 = 255;

/// Brings the system up: the GPIO (banks clocked, LEDs as outputs), the tick
/// timer, and the idle task (entry `idle`, stack at `idle_stack`) in the first
/// free slot of the priority scheduler.
pub fn init(
    regs: &mut RegisterFile,
    controller: &Controller,
    timers: &mut Timers,
    tasks: &mut TaskManager,
    idle: usize,
    idle_stack: usize,
)
    requires
        old(timers).wf(),
        old(tasks).wf(),
        idle_stack + TASK_STACK_SIZE <= usize::MAX,
    ensures
        final(regs)@ == dm_initialized(gpio_initialized(old(regs)@), DmTimer::Timer2, TICK_RELOAD),
        final(timers).wf(),
        final(tasks).wf(),
        final(tasks).current_spec() == old(tasks).current_spec(),
        forall|i: int| 0 <= i < MAX_TASKS && (#[trigger] old(tasks).tasks_spec()[i]) is None
            && (forall|j: int| 0 <= j < i ==> (#[trigger] old(tasks).tasks_spec()[j]) is Some)
            ==> final(tasks).tasks_spec() == old(tasks).tasks_spec().update(i, Some(Task {
                id: i as u32,
                sp: (idle_stack + TASK_STACK_SIZE) as usize,
                pc: idle,
                priority: IDLE_PRIORITY,
                stack: [0u8; TASK_STACK_SIZE],
                state: TaskState::Ready,
            })),
{
    peripherals::gpio::init(regs);
    internals::sysclock::init(regs, controller, timers);
    let _ = tasks.create_task(idle, IDLE_PRIORITY, idle_stack);
}

} // verus!
