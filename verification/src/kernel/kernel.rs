use vstd::prelude::*;
use crate::sys::{RegisterFile, bit_of};
use crate::internals::mmu::Mmu;
use crate::internals::mmu::l2::{L2_FAULT_PAGE_TABLE_ENTRY, frame_index};
use crate::shared::gpio::{GpioBank, GpioPin, bank_address, is_bank_address};
use crate::shared::interrupts::Cpu;
use crate::shared::kernel::{Syscall, SyscallReturnValue, TrapFrame};
use crate::shared::memory::heap::{allocated, is_power_of_two};
use crate::kernel::internals::sysclock::Sysclock;
use crate::kernel::internals::tasks::{
    switched, frames_owned, owns_frames, frames_apart, live, code_frame, data_frame,
    lemma_frames_owned_kept, lemma_frame_index_range, lemma_with_state, lemma_with_context,
    ContextSwitch, Scheduler, Task, TaskContext, TaskState, MAX_TASKS, mmu_unchanged, unmapped_both,
    numbered, executable_at, law_round_runs_a_runnable_task, law_switch_keeps_numbered, freed,
};
use crate::kernel::peripherals::gpio::{self, GPIO_DATAIN, GPIO_DATAOUT, bit_cleared, bit_set, pin_register};

verus! {

/// A request number that names no request.
#[derive(Clone, Copy, PartialEq, Eq, Structural)]
pub struct SyscallError {}

/// The GPIO controller whose base address is `value`.
pub open spec fn bank_from_address(value: u32) -> GpioBank {
    if value == 0x44E0_7000 {
        GpioBank::Gpio0
    } else if value == 0x4804_C000 {
        GpioBank::Gpio1
    } else if value == 0x481A_C000 {
        GpioBank::Gpio2
    } else {
        GpioBank::Gpio3
    }
}

/// The request that the registers `f` carry: the number in r12 names it, r0
/// to r2 hold its arguments (a timeout of 0 means none).
pub open spec fn decode_spec(f: TrapFrame) -> Result<Syscall, SyscallError> {
    match f.r12 {
        0 => Ok(Syscall::Exit),
        1 => Ok(Syscall::Yield { sp: f.r0, pc: f.r1, until: if f.r2 == 0 { None } else { Some(f.r2) } }),
        2 => Ok(Syscall::Millis),
        3 => Ok(Syscall::GpioRead { pin: (f.r1, bank_from_address(f.r0)) }),
        4 => Ok(Syscall::GpioWrite { pin: (f.r1, bank_from_address(f.r0)), value: f.r2 != 0 }),
        5 => Ok(Syscall::I2cWrite { address: f.r0 as u8, data: f.r1, len: f.r2 }),
        6 => Ok(Syscall::Panic),
        7 => Ok(Syscall::Alloc { size: f.r0, align: f.r1 }),
        8 => Ok(Syscall::Dealloc { ptr: f.r0, size: f.r1, align: f.r2 }),
        _ => Err(SyscallError {}),
    }
}

/// A pin request names a GPIO controller by its base address.
pub open spec fn decodable(f: TrapFrame) -> bool {
    (f.r12 == 3 || f.r12 == 4) ==> is_bank_address(f.r0)
}

impl TrapFrame {
    /// The request these registers carry; `SyscallError` for an unknown number.
    pub fn decode(&self) -> (r: Result<Syscall, SyscallError>)
        requires
            decodable(*self),
        ensures
            r == decode_spec(*self),
    {
        match self.r12 {
            0 => Ok(Syscall::Exit),
            1 => Ok(Syscall::Yield {
                sp: self.r0,
                pc: self.r1,
                until: if self.r2 == 0 { None } else { Some(self.r2) },
            }),
            2 => Ok(Syscall::Millis),
            3 => Ok(Syscall::GpioRead { pin: (self.r1, GpioBank::from_address(self.r0)) }),
            4 => Ok(Syscall::GpioWrite { pin: (self.r1, GpioBank::from_address(self.r0)), value: self.r2 != 0 }),
            5 => Ok(Syscall::I2cWrite { address: self.r0 as u8, data: self.r1, len: self.r2 }),
            6 => Ok(Syscall::Panic),
            7 => Ok(Syscall::Alloc { size: self.r0, align: self.r1 }),
            8 => Ok(Syscall::Dealloc { ptr: self.r0, size: self.r1, align: self.r2 }),
            _ => Err(SyscallError {}),
        }
    }
}

/// The kernel's answer to a request: whether to leave the task (it ended or
/// yielded) and the value handed back.
#[derive(Clone, Copy, PartialEq, Eq, Structural)]
pub struct SyscallReturn {
    pub exit: bool,
    pub value: SyscallReturnValue,
}

impl SyscallReturn {
    /// Leave the task; nothing handed back.
    pub fn exit() -> (r: Self)
        ensures
            r == (SyscallReturn { exit: true, value: SyscallReturnValue::Nothing }),
    {
        SyscallReturn { exit: true, value: SyscallReturnValue::Nothing }
    }

    /// Return to the task with `value`.
    pub fn value(value: SyscallReturnValue) -> (r: Self)
        ensures
            r == (SyscallReturn { exit: false, value }),
    {
        SyscallReturn { exit: false, value }
    }

    /// Return to the task with nothing.
    pub fn none() -> (r: Self)
        ensures
            r == (SyscallReturn { exit: false, value: SyscallReturnValue::Nothing }),
    {
        SyscallReturn { exit: false, value: SyscallReturnValue::Nothing }
    }
}

/// The whole machine state the kernel acts on.
pub struct Kernel {
    pub scheduler: Scheduler,
    pub mmu: Mmu,
    pub registers: RegisterFile,
    pub cpu: Cpu,
    pub sysclock: Sysclock,
}

/// How a request ends: with an answer, or with an I2C transfer that the
/// interrupt-driven driver has to carry out before the answer is known.
#[derive(Clone, Copy, PartialEq, Eq, Structural)]
pub enum SyscallOutcome {
    Return(SyscallReturn),
    I2cWrite { address: u8, data: u32, len: u32 },
}

/// The slot of the task on the processor, if any.
pub open spec fn running_slot(s: Scheduler) -> Option<int> {
    match s.current_index_spec() {
        Some(i) => if s.tasks_spec()[i as int].state_spec() == TaskState::Running { Some(i as int) } else { None },
        None => None,
    }
}

/// The current slot after `Scheduler::cycle`.
pub open spec fn cycled(c: Option<usize>) -> Option<usize> {
    match c {
        Some(i) => Some(((i + 1) % (MAX_TASKS as int)) as usize),
        None => None,
    }
}

/// `after` ended the running task (if any) and moved on to the next slot.
pub open spec fn ended_running(before: Kernel, after: Kernel) -> bool {
    let s = before.scheduler;
    &&& after.scheduler.current_index_spec() == cycled(s.current_index_spec())
    &&& match running_slot(s) {
        Some(i) => {
            &&& after.scheduler.tasks_spec() == s.tasks_spec().update(i, s.tasks_spec()[i].with_state(TaskState::Terminated))
            &&& unmapped_both(before.mmu, after.mmu, s.tasks_spec()[i].code_page_spec(), s.tasks_spec()[i].data_page_spec())
        },
        None => after.scheduler.tasks_spec() == s.tasks_spec() && mmu_unchanged(before.mmu, after.mmu),
    }
    &&& after.registers@ == before.registers@
    &&& after.cpu == before.cpu
    &&& after.sysclock == before.sysclock
}

/// `after` saved the running task's context (if any) in state `state` and moved
/// on to the next slot.
pub open spec fn yielded_running(before: Kernel, after: Kernel, sp: u32, pc: u32, state: TaskState) -> bool {
    let s = before.scheduler;
    &&& after.scheduler.current_index_spec() == cycled(s.current_index_spec())
    &&& after.scheduler.tasks_spec() == match running_slot(s) {
        Some(i) => s.tasks_spec().update(
            i,
            s.tasks_spec()[i].with_context(TaskContext { sp, pc }).with_state(state),
        ),
        None => s.tasks_spec(),
    }
    &&& mmu_unchanged(before.mmu, after.mmu)
    &&& after.registers@ == before.registers@
    &&& after.cpu == before.cpu
    &&& after.sysclock == before.sysclock
}

/// Only the register space changed, to `registers`.
pub open spec fn only_registers(before: Kernel, after: Kernel, registers: Map<u32, u32>) -> bool {
    &&& after.scheduler.tasks_spec() == before.scheduler.tasks_spec()
    &&& after.scheduler.current_index_spec() == before.scheduler.current_index_spec()
    &&& mmu_unchanged(before.mmu, after.mmu)
    &&& after.registers@ == registers
    &&& after.cpu == before.cpu
    &&& after.sysclock == before.sysclock
}

/// The requests the kernel can serve without failing: a known number, a pin
/// within its bank, and an allocation alignment that is a power of two.
pub open spec fn serviceable(f: TrapFrame) -> bool {
    &&& decodable(f)
    &&& f.r12 <= 8
    &&& (f.r12 == 3 || f.r12 == 4) ==> f.r1 < 32
    &&& f.r12 == 7 ==> is_power_of_two(f.r1 as usize)
}

impl TrapFrame {
    /// Whether the kernel can serve the request these registers carry; the
    /// kernel stops on any other.
    pub fn is_serviceable(&self) -> (r: bool)
        ensures
            r == serviceable(*self),
    {
        if self.r12 > 8 {
            return false;
        }
        if self.r12 == 3 || self.r12 == 4 {
            let bank = self.r0 == 0x44E0_7000 || self.r0 == 0x4804_C000 || self.r0 == 0x481A_C000
                || self.r0 == 0x481A_E000;
            if !bank || self.r1 >= 32 {
                return false;
            }
        }
        if self.r12 == 7 {
            let align = self.r1 as usize;
            if align == 0 || align & (align - 1) != 0 {
                return false;
            }
        }
        true
    }
}

/// What serving the request in `frame` did: `after` is the kernel `before`
/// once the request was served, and `outcome` is what it answered.
pub open spec fn served(before: Kernel, after: Kernel, frame: TrapFrame, outcome: SyscallOutcome) -> bool {
    match decode_spec(frame) {
        Ok(Syscall::Exit) | Ok(Syscall::Panic) => {
            &&& ended_running(before, after)
            &&& outcome == SyscallOutcome::Return(SyscallReturn { exit: true, value: SyscallReturnValue::Nothing })
        },
        Ok(Syscall::Yield { sp, pc, until }) => {
            &&& yielded_running(before, after, sp, pc, match until {
                None => TaskState::Stored,
                Some(u) => TaskState::Waiting { until: u },
            })
            &&& outcome == SyscallOutcome::Return(SyscallReturn { exit: true, value: SyscallReturnValue::Nothing })
        },
        Ok(Syscall::Millis) => {
            &&& only_registers(before, after, before.registers@)
            &&& outcome == SyscallOutcome::Return(SyscallReturn {
                exit: false,
                value: SyscallReturnValue::Millis(before.sysclock.ticks_spec()),
            })
        },
        Ok(Syscall::GpioRead { pin }) => {
            &&& only_registers(before, after, before.registers@)
            &&& outcome == SyscallOutcome::Return(SyscallReturn {
                exit: false,
                value: SyscallReturnValue::GpioRead(
                    bit_of(before.registers@[pin_register(pin, GPIO_DATAIN)], pin.0),
                ),
            })
        },
        Ok(Syscall::GpioWrite { pin, value }) => {
            &&& only_registers(before, after, if value {
                bit_set(before.registers@, pin_register(pin, GPIO_DATAOUT), pin.0)
            } else {
                bit_cleared(before.registers@, pin_register(pin, GPIO_DATAOUT), pin.0)
            })
            &&& outcome == SyscallOutcome::Return(SyscallReturn { exit: false, value: SyscallReturnValue::Nothing })
        },
        Ok(Syscall::I2cWrite { address, data, len }) => {
            &&& only_registers(before, after, before.registers@)
            &&& outcome == SyscallOutcome::I2cWrite { address, data, len }
        },
        Ok(Syscall::Alloc { size, align }) => {
            &&& after.scheduler.current_index_spec() == before.scheduler.current_index_spec()
            &&& mmu_unchanged(before.mmu, after.mmu)
            &&& after.registers@ == before.registers@
            &&& after.cpu.cpsr == before.cpu.cpsr
            &&& after.sysclock == before.sysclock
            &&& match running_slot(before.scheduler) {
                Some(i) => {
                    let t = before.scheduler.tasks_spec()[i];
                    let n = after.scheduler.tasks_spec()[i];
                    &&& exists|ptr: u32| {
                        &&& outcome == SyscallOutcome::Return(SyscallReturn { exit: false, value: SyscallReturnValue::Alloc(ptr) })
                        &&& allocated(t.allocator_spec(), n.allocator_spec(), size as usize, align as usize, ptr as usize)
                    }
                    &&& after.scheduler.tasks_spec().len() == MAX_TASKS
                    &&& forall|j: int| 0 <= j < MAX_TASKS && j != i ==> #[trigger] after.scheduler.tasks_spec()[j] == before.scheduler.tasks_spec()[j]
                    &&& n.id_spec() == t.id_spec()
                    &&& n.state_spec() == t.state_spec()
                    &&& n.context_spec() == t.context_spec()
                    &&& n.code_page_spec() == t.code_page_spec()
                    &&& n.data_page_spec() == t.data_page_spec()
                },
                None => {
                    &&& after.scheduler.tasks_spec() == before.scheduler.tasks_spec()
                    &&& outcome == SyscallOutcome::Return(SyscallReturn { exit: false, value: SyscallReturnValue::Nothing })
                },
            }
        },
        Ok(Syscall::Dealloc { .. }) => {
            &&& only_registers(before, after, before.registers@)
            &&& outcome == SyscallOutcome::Return(SyscallReturn { exit: false, value: SyscallReturnValue::Nothing })
        },
        Err(_) => false,
    }
}

impl Kernel {
    /// Serves the request carried by `frame` for the running task: ends it
    /// (`Exit`, `Panic`), saves its context and lets the next slot run
    /// (`Yield`, waiting until the given time when there is one), answers the
    /// millisecond count, reads or drives a pin, allocates from the task's
    /// heap (nothing when no task runs), or hands an I2C transfer on.
    pub fn swi_handler(&mut self, frame: &TrapFrame) -> (outcome: SyscallOutcome)
        requires
            old(self).scheduler.wf(),
            serviceable(*frame),
        ensures
            final(self).scheduler.wf(),
            served(*old(self), *final(self), *frame, outcome),
    {
        let syscall = match frame.decode() {
            Ok(syscall) => syscall,
            Err(_) => {
                assert(false);
                return SyscallOutcome::Return(SyscallReturn::none());
            },
        };
        match syscall {
            Syscall::Exit | Syscall::Panic => {
                if let Some(task) = self.scheduler.current() {
                    task.terminate(&mut self.mmu);
                }
                self.scheduler.cycle();
                SyscallOutcome::Return(SyscallReturn::exit())
            },
            Syscall::Yield { sp, pc, until } => {
                if let Some(task) = self.scheduler.current() {
                    task.set_context(TaskContext { sp, pc });
                    match until {
                        None => task.set_state(TaskState::Stored),
                        Some(until) => task.set_state(TaskState::Waiting { until }),
                    }
                }
                self.scheduler.cycle();
                SyscallOutcome::Return(SyscallReturn::exit())
            },
            Syscall::Millis => SyscallOutcome::Return(
                SyscallReturn::value(SyscallReturnValue::Millis(self.sysclock.millis())),
            ),
            Syscall::GpioWrite { pin, value } => {
                gpio::write(&mut self.registers, pin, value);
                SyscallOutcome::Return(SyscallReturn::none())
            },
            Syscall::GpioRead { pin } => {
                let value = gpio::read(&self.registers, pin);
                SyscallOutcome::Return(SyscallReturn::value(SyscallReturnValue::GpioRead(value)))
            },
            Syscall::I2cWrite { address, data, len } => SyscallOutcome::I2cWrite { address, data, len },
            Syscall::Alloc { size, align } => {
                if let Some(task) = self.scheduler.current() {
                    assert((align as usize) <= 0x8000_0000usize) by (bit_vector)
                        requires
                            (align as usize) != 0,
                            (align as usize) & (((align as usize) - 1) as usize) == 0,
                    ;
                    let ptr = task.allocate(&mut self.cpu, size as usize, align as usize);
                    return SyscallOutcome::Return(SyscallReturn::value(SyscallReturnValue::Alloc(ptr as u32)));
                }
                SyscallOutcome::Return(SyscallReturn::none())
            },
            Syscall::Dealloc { ptr, size, align } => {
                if let Some(task) = self.scheduler.current() {
                    task.deallocate(ptr as usize, size as usize, align as usize);
                }
                assert(self.scheduler.tasks_spec() =~= old(self).scheduler.tasks_spec());
                SyscallOutcome::Return(SyscallReturn::none())
            },
        }
    }
}

/// One round of the kernel loop: let the scheduler pick the next task at the
/// current millisecond count (see `Scheduler::switch`).
pub fn kernel_loop(kernel: &mut Kernel) -> (action: ContextSwitch)
    requires
        old(kernel).scheduler.wf(),
    ensures
        final(kernel).scheduler.wf(),
        switched(
            old(kernel).scheduler,
            final(kernel).scheduler,
            old(kernel).mmu,
            final(kernel).mmu,
            old(kernel).sysclock.ticks_spec(),
            action,
        ),
        final(kernel).registers@ == old(kernel).registers@,
        final(kernel).cpu == old(kernel).cpu,
        final(kernel).sysclock.ticks_spec() == old(kernel).sysclock.ticks_spec(),
        numbered(old(kernel).scheduler.tasks_spec()) ==> {
            &&& numbered(final(kernel).scheduler.tasks_spec())
            &&& (action == ContextSwitch::Stay) <==> (forall|j: int| 0 <= j < MAX_TASKS
                ==> !executable_at(#[trigger] old(kernel).scheduler.tasks_spec()[j].state_spec(), old(kernel).sysclock.ticks_spec()))
        },
{
    let now = kernel.sysclock.millis();
    let action = kernel.scheduler.switch(&mut kernel.mmu, now);
    proof {
        if numbered(old(kernel).scheduler.tasks_spec()) {
            law_round_runs_a_runnable_task(old(kernel).scheduler, kernel.scheduler, old(kernel).mmu, kernel.mmu, now, action);
            law_switch_keeps_numbered(old(kernel).scheduler, kernel.scheduler, old(kernel).mmu, kernel.mmu, now, action);
        }
    }
    action
}

/// Exit and panic end the running task alike: it is terminated, both of its
/// pages fault again and their pool frames are free for another task, every
/// other slot is as it was, and the task is told it ended. With no running
/// task no slot changes.
pub proof fn law_exit_and_panic_end_the_running_task(before: Kernel, after: Kernel, frame: TrapFrame, outcome: SyscallOutcome)
    requires
        before.scheduler.wf(),
        served(before, after, frame, outcome),
        decode_spec(frame) == Ok::<Syscall, SyscallError>(Syscall::Exit)
            || decode_spec(frame) == Ok::<Syscall, SyscallError>(Syscall::Panic),
    ensures
        outcome == SyscallOutcome::Return(SyscallReturn { exit: true, value: SyscallReturnValue::Nothing }),
        match running_slot(before.scheduler) {
            Some(i) => {
                let t = before.scheduler.tasks_spec()[i];
                let code = (t.code_page_spec().virtual_address() >> 12) as int;
                let data = (t.data_page_spec().virtual_address() >> 12) as int;
                &&& after.scheduler.tasks_spec()[i].state_spec() == TaskState::Terminated
                &&& forall|j: int| 0 <= j < MAX_TASKS && j != i
                    ==> #[trigger] after.scheduler.tasks_spec()[j] == before.scheduler.tasks_spec()[j]
                &&& (frame_index(t.code_page_spec().physical_address()) matches Some(c) ==> !after.mmu.used_pages()[c])
                &&& (frame_index(t.data_page_spec().physical_address()) matches Some(d) ==> !after.mmu.used_pages()[d])
                &&& code < 256 && data < 256 ==> after.mmu.level2()[code] == L2_FAULT_PAGE_TABLE_ENTRY
                    && after.mmu.level2()[data] == L2_FAULT_PAGE_TABLE_ENTRY
            },
            None => after.scheduler.tasks_spec() == before.scheduler.tasks_spec(),
        },
{
    before.mmu.lemma_wf();
    after.mmu.lemma_wf();
    if let Some(i) = running_slot(before.scheduler) {
        let t = before.scheduler.tasks_spec()[i];
        lemma_with_state(t, TaskState::Terminated);
        lemma_frame_index_range(t.code_page_spec().physical_address());
        lemma_frame_index_range(t.data_page_spec().physical_address());
        let used = before.mmu.used_pages();
        let once = freed(used, t.data_page_spec().physical_address());
        assert(once.len() == 256);
        let code = (t.code_page_spec().virtual_address() >> 12) as int;
        let data = (t.data_page_spec().virtual_address() >> 12) as int;
        if code < 256 && data < 256 {
            let l2 = before.mmu.level2().update(data, L2_FAULT_PAGE_TABLE_ENTRY);
            assert(l2.len() == 256);
        }
    }
}

/// Serving a request keeps every slot holding the task of its number, so the
/// kernel loop's scheduling keeps finding every runnable task.
pub proof fn law_request_keeps_numbered(before: Kernel, after: Kernel, frame: TrapFrame, outcome: SyscallOutcome)
    requires
        before.scheduler.wf(),
        numbered(before.scheduler.tasks_spec()),
        served(before, after, frame, outcome),
    ensures
        numbered(after.scheduler.tasks_spec()),
{
    let tasks = before.scheduler.tasks_spec();
    let after_tasks = after.scheduler.tasks_spec();
    match decode_spec(frame) {
        Ok(Syscall::Exit) | Ok(Syscall::Panic) => {
            if let Some(i) = running_slot(before.scheduler) {
                lemma_with_state(tasks[i], TaskState::Terminated);
                assert forall|k: int| 0 <= k < after_tasks.len() implies #[trigger] after_tasks[k].id_spec() == k by {
                    assert(tasks[k].id_spec() == k);
                }
            }
        },
        Ok(Syscall::Yield { sp, pc, until }) => {
            if let Some(i) = running_slot(before.scheduler) {
                let state = match until {
                    None => TaskState::Stored,
                    Some(u) => TaskState::Waiting { until: u },
                };
                lemma_with_context(tasks[i], TaskContext { sp, pc });
                lemma_with_state(tasks[i].with_context(TaskContext { sp, pc }), state);
                assert forall|k: int| 0 <= k < after_tasks.len() implies #[trigger] after_tasks[k].id_spec() == k by {
                    assert(tasks[k].id_spec() == k);
                }
            }
        },
        Ok(Syscall::Alloc { .. }) => {
            if let Some(i) = running_slot(before.scheduler) {
                assert forall|k: int| 0 <= k < after_tasks.len() implies #[trigger] after_tasks[k].id_spec() == k by {
                    assert(tasks[k].id_spec() == k);
                    if k != i {
                        assert(after_tasks[k] == tasks[k]);
                    }
                }
            }
        },
        _ => {},
    }
}

/// Ending the running task keeps the tasks' memory apart: its frames go
/// back to the pool and the other tasks keep theirs.
pub proof fn law_exit_keeps_frames_apart(before: Kernel, after: Kernel)
    requires
        before.scheduler.wf(),
        after.scheduler.wf(),
        frames_owned(before.scheduler.tasks_spec(), before.mmu.used_pages()),
        ended_running(before, after),
    ensures
        frames_owned(after.scheduler.tasks_spec(), after.mmu.used_pages()),
{
    let tasks = before.scheduler.tasks_spec();
    let used = before.mmu.used_pages();
    after.mmu.lemma_wf();
    match running_slot(before.scheduler) {
        None => {
            lemma_frames_owned_kept(tasks, after.scheduler.tasks_spec(), used, after.mmu.used_pages());
        },
        Some(i) => {
            let t = tasks[i];
            lemma_with_state(t, TaskState::Terminated);
            let used_after = after.mmu.used_pages();
            let after_tasks = after.scheduler.tasks_spec();
            assert(owns_frames(t, used));
            assert(used_after == used.update(data_frame(t), false).update(code_frame(t), false));
            assert forall|k: int| 0 <= k < after_tasks.len() && live(#[trigger] after_tasks[k]) implies owns_frames(after_tasks[k], used_after) by {
                assert(k != i);
                assert(after_tasks[k] == tasks[k]);
                assert(frames_apart(tasks[k], t));
                lemma_frame_index_range(tasks[k].code_page_spec().physical_address());
                lemma_frame_index_range(tasks[k].data_page_spec().physical_address());
            }
            assert forall|k: int, m: int|
                0 <= k < after_tasks.len() && 0 <= m < after_tasks.len() && k != m && live(#[trigger] after_tasks[k]) && live(
                    #[trigger] after_tasks[m],
                ) implies frames_apart(after_tasks[k], after_tasks[m]) by {
                assert(after_tasks[k] == tasks[k]);
                assert(after_tasks[m] == tasks[m]);
            }
        },
    }
}

/// A task that yields keeps its memory, and so do the others.
pub proof fn law_yield_keeps_frames_apart(before: Kernel, after: Kernel, sp: u32, pc: u32, state: TaskState)
    requires
        before.scheduler.wf(),
        after.scheduler.wf(),
        state != TaskState::Terminated,
        frames_owned(before.scheduler.tasks_spec(), before.mmu.used_pages()),
        yielded_running(before, after, sp, pc, state),
    ensures
        frames_owned(after.scheduler.tasks_spec(), after.mmu.used_pages()),
{
    let tasks = before.scheduler.tasks_spec();
    after.mmu.lemma_wf();
    if let Some(i) = running_slot(before.scheduler) {
        lemma_with_context(tasks[i], TaskContext { sp, pc });
        lemma_with_state(tasks[i].with_context(TaskContext { sp, pc }), state);
    }
    lemma_frames_owned_kept(tasks, after.scheduler.tasks_spec(), before.mmu.used_pages(), after.mmu.used_pages());
}

/// A request that only reads or drives the registers (the clock, a pin, an
/// I2C transfer, a deallocation) keeps the tasks' memory apart.
pub proof fn law_register_request_keeps_frames_apart(before: Kernel, after: Kernel, registers: Map<u32, u32>)
    requires
        frames_owned(before.scheduler.tasks_spec(), before.mmu.used_pages()),
        only_registers(before, after, registers),
    ensures
        frames_owned(after.scheduler.tasks_spec(), after.mmu.used_pages()),
{
}

/// An allocation from the running task's heap keeps the tasks' memory apart:
/// only that task's heap changes.
pub proof fn law_alloc_keeps_frames_apart(before: Kernel, after: Kernel)
    requires
        before.scheduler.wf(),
        frames_owned(before.scheduler.tasks_spec(), before.mmu.used_pages()),
        mmu_unchanged(before.mmu, after.mmu),
        match running_slot(before.scheduler) {
            Some(i) => {
                let t = before.scheduler.tasks_spec()[i];
                let n = after.scheduler.tasks_spec()[i];
                &&& after.scheduler.tasks_spec().len() == MAX_TASKS
                &&& forall|j: int| 0 <= j < MAX_TASKS && j != i ==> #[trigger] after.scheduler.tasks_spec()[j] == before.scheduler.tasks_spec()[j]
                &&& n.state_spec() == t.state_spec()
                &&& n.code_page_spec() == t.code_page_spec()
                &&& n.data_page_spec() == t.data_page_spec()
            },
            None => after.scheduler.tasks_spec() == before.scheduler.tasks_spec(),
        },
    ensures
        frames_owned(after.scheduler.tasks_spec(), after.mmu.used_pages()),
{
    let tasks = before.scheduler.tasks_spec();
    let after_tasks = after.scheduler.tasks_spec();
    if let Some(i) = running_slot(before.scheduler) {
        assert forall|k: int| 0 <= k < tasks.len() implies {
            &&& live(#[trigger] after_tasks[k]) == live(tasks[k])
            &&& after_tasks[k].code_page_spec() == tasks[k].code_page_spec()
            &&& after_tasks[k].data_page_spec() == tasks[k].data_page_spec()
        } by {
            if k != i {
                assert(after_tasks[k] == tasks[k]);
            }
        }
        lemma_frames_owned_kept(tasks, after_tasks, before.mmu.used_pages(), after.mmu.used_pages());
    }
}

} // verus!
