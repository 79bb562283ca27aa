use vstd::prelude::*;

verus! {

/// Bytes of stack each task gets.
pub const TASK_STACK_SIZE: usize = 1024;

/// The life cycle of a task under the priority scheduler.
#[derive(Clone, Copy, PartialEq, Eq, Structural)]
pub enum TaskState {
    /// Created, never run.
    Ready,
    /// Preempted or yielded with its context saved.
    Stored,
    /// On the processor.
    Running,
    /// Waiting until the tick count reaches the given value.
    Blocked(u32),
}

/// Whether a task in `state` may run at tick count `ticks`.
pub open spec fn runnable(state: TaskState, ticks: u32) -> bool {
    match state {
        TaskState::Ready => true,
        TaskState::Stored => true,
        TaskState::Running => false,
        TaskState::Blocked(until) => ticks >= until,
    }
}

impl TaskState {
    /// Whether a task in this state may run at tick count `ticks`: ready and
    /// stored tasks may, a running one may not, a blocked one once the tick
    /// count has reached its time.
    pub fn executable(&self, ticks: u32) -> (r: bool)
        ensures
            r == runnable(*self, ticks),
    {
        match self {
            TaskState::Ready => true,
            TaskState::Stored => true,
            TaskState::Running => false,
            TaskState::Blocked(until) => ticks >= *until,
        }
    }
}

/// A task of the priority scheduler: where it resumes and how urgent it is
/// (a lower number runs first).
#[derive(Clone, Copy, PartialEq, Eq)]
pub struct Task {
    pub id: u32,
    pub sp: usize,
    pub pc: usize,
    pub priority: u8,
    /// The task's stack, zeroed when the task is made.
    pub stack: [u8; TASK_STACK_SIZE],
    pub state: TaskState,
}

impl Task {
    /// A ready task `id` that starts at `pc`, with a zeroed stack; its stack
    /// pointer is set later by `setup_stack`.
    pub fn new(id: u32, pc: usize, priority: u8) -> (t: Self)
        ensures
            t == (Task { id, sp: 0, pc, priority, stack: [0u8; TASK_STACK_SIZE], state: TaskState::Ready }),
            forall|i: int| 0 <= i < TASK_STACK_SIZE ==> t.stack@[i] == 0,
    {
        let t = Task { id, sp: 0, pc, priority, stack: [0u8; TASK_STACK_SIZE], state: TaskState::Ready };
        proof {
            vstd::array::axiom_spec_array_fill_for_copy_type::<u8, TASK_STACK_SIZE>(0u8);
        }
        t
    }

    /// Points the stack pointer at the top of the task's stack, whose first
    /// byte lies at `stack_address` (where the task itself is kept decides it).
    pub fn setup_stack(&mut self, stack_address: usize)
        requires
            stack_address + TASK_STACK_SIZE <= usize::MAX,
        ensures
            *final(self) == (Task { sp: (stack_address + TASK_STACK_SIZE) as usize, ..*old(self) }),
    {
        self.sp = stack_address + TASK_STACK_SIZE;
    }
}

} // verus!
