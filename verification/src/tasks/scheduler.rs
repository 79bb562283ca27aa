use vstd::prelude::*;
use super::task::{Task, TaskState, TASK_STACK_SIZE, runnable};

verus! {

/// Number of task slots of the priority scheduler.
pub const MAX_TASKS: usize = 8;

/// Task creation did not report success.
#[derive(Clone, Copy, PartialEq, Eq, Structural)]
pub struct TaskCreationError;

/// What the kernel does after the priority scheduler decided.
#[derive(Clone, Copy, PartialEq, Eq, Structural)]
pub enum Dispatch {
    /// Nothing to switch to.
    Stay,
    /// Start a task at `pc` with stack `sp`.
    Switch { sp: usize, pc: usize },
    /// Resume a task at `pc` with stack `sp`.
    Restore { sp: usize, pc: usize },
}

/// Whether slot `i` holds a task that may run at tick count `ticks`.
pub open spec fn eligible(tasks: Seq<Option<Task>>, i: int, ticks: u32) -> bool {
    tasks[i] matches Some(t) && runnable(t.state, ticks)
}

/// The slot the scheduler picks among the first `k`: an eligible task of the
/// lowest priority number, the first such slot on ties.
pub open spec fn pick(tasks: Seq<Option<Task>>, ticks: u32, k: int) -> Option<int>
    decreases k,
{
    if k <= 0 {
        None
    } else {
        let before = pick(tasks, ticks, k - 1);
        if eligible(tasks, k - 1, ticks) && (match before {
            None => true,
            Some(b) => tasks[k - 1]->0.priority < tasks[b]->0.priority,
        }) {
            Some(k - 1)
        } else {
            before
        }
    }
}

/// The slot picked among the first `k` is one of them and holds a task that may run.
pub proof fn lemma_pick_eligible(tasks: Seq<Option<Task>>, ticks: u32, k: int)
    ensures
        pick(tasks, ticks, k) matches Some(b) ==> 0 <= b < k && eligible(tasks, b, ticks),
    decreases k,
{
    if k > 0 {
        lemma_pick_eligible(tasks, ticks, k - 1);
    }
}

/// `after` and `action` are what `cycle` at `ticks` makes of slots `tasks` with
/// current slot `current`.
pub open spec fn cycled_from(tasks: Seq<Option<Task>>, current: usize, ticks: u32, after: TaskManager, action: Dispatch) -> bool {
    match pick(tasks, ticks, MAX_TASKS as int) {
        None => {
            &&& action == Dispatch::Stay
            &&& after.tasks_spec() == tasks
            &&& after.current_spec() == current
        },
        Some(i) => {
            let t = tasks[i]->0;
            &&& after.current_spec() == i
            &&& after.tasks_spec() == tasks.update(i, Some(Task { state: TaskState::Running, ..t }))
            &&& action == if t.state == TaskState::Ready {
                Dispatch::Switch { sp: t.sp, pc: t.pc }
            } else {
                Dispatch::Restore { sp: t.sp, pc: t.pc }
            }
        },
    }
}

/// The tasks of the priority scheduler and the slot on the processor.
pub struct TaskManager {
    tasks: Vec<Option<Task>>,
    current_task: usize,
}

impl TaskManager {
    /// The task slots.
    pub closed spec fn tasks_spec(&self) -> Seq<Option<Task>> {
        self.tasks@
    }

    /// The slot last picked.
    pub closed spec fn current_spec(&self) -> usize {
        self.current_task
    }

    /// `MAX_TASKS` slots, each task's id its slot, and the current slot one of them.
    pub open spec fn wf(&self) -> bool {
        &&& self.tasks_spec().len() == MAX_TASKS
        &&& self.current_spec() < MAX_TASKS
        &&& forall|i: int| 0 <= i < MAX_TASKS ==> (#[trigger] self.tasks_spec()[i] matches Some(t) ==> t.id == i)
    }

    /// No tasks, slot 0 current.
    pub fn new() -> (m: Self)
        ensures
            m.wf(),
            m.current_spec() == 0,
            m.tasks_spec() == Seq::new(MAX_TASKS as nat, |i: int| None::<Task>),
    {
        let mut tasks: Vec<Option<Task>> = Vec::new();
        let mut i: usize = 0;
        while i < MAX_TASKS
            invariant
                i <= MAX_TASKS,
                tasks@ == Seq::new(i as nat, |j: int| None::<Task>),
            decreases MAX_TASKS - i,
        {
            tasks.push(None);
            i += 1;
        }
        TaskManager { tasks, current_task: 0 }
    }

    /// The task in slot `index`, if there is one.
    pub fn task(&mut self, index: usize) -> (r: Option<&mut Task>)
        requires
            old(self).wf(),
            index < MAX_TASKS,
        ensures
            final(self).current_spec() == old(self).current_spec(),
            match old(self).tasks_spec()[index as int] {
                Some(t) => {
                    &&& r matches Some(rt)
                    &&& *rt == t
                    &&& final(self).tasks_spec() == old(self).tasks_spec().update(index as int, Some(*final(rt)))
                },
                None => r is None && final(self).tasks_spec() == old(self).tasks_spec(),
            },
    {
        match &mut self.tasks[index] {
            Some(task) => Some(task),
            None => None,
        }
    }

    /// The task in the current slot, if there is one.
    pub fn current(&mut self) -> (r: Option<&mut Task>)
        requires
            old(self).wf(),
        ensures
            final(self).current_spec() == old(self).current_spec(),
            match old(self).tasks_spec()[old(self).current_spec() as int] {
                Some(t) => {
                    &&& r matches Some(rt)
                    &&& *rt == t
                    &&& final(self).tasks_spec() == old(self).tasks_spec().update(old(self).current_spec() as int, Some(*final(rt)))
                },
                None => r is None && final(self).tasks_spec() == old(self).tasks_spec(),
            },
    {
        let index = self.current_task;
        self.task(index)
    }

    /// Puts a ready task, starting at `entry_point` with priority `priority`,
    /// in the first empty slot (its id is the slot), its stack at
    /// `stack_address`. Whether or not a slot was free, the result is
    /// `Err(TaskCreationError)`.
    pub fn create_task(&mut self, entry_point: usize, priority: u8, stack_address: usize) -> (r: Result<(), TaskCreationError>)
        requires
            old(self).wf(),
            stack_address + TASK_STACK_SIZE <= usize::MAX,
        ensures
            final(self).wf(),
            r == Err::<(), TaskCreationError>(TaskCreationError),
            final(self).current_spec() == old(self).current_spec(),
            (forall|i: int| 0 <= i < MAX_TASKS ==> (#[trigger] old(self).tasks_spec()[i]) is Some)
                ==> final(self).tasks_spec() == old(self).tasks_spec(),
            forall|i: int| 0 <= i < MAX_TASKS && (#[trigger] old(self).tasks_spec()[i]) is None
                && (forall|j: int| 0 <= j < i ==> (#[trigger] old(self).tasks_spec()[j]) is Some)
                ==> final(self).tasks_spec() == old(self).tasks_spec().update(i, Some(Task {
                    id: i as u32,
                    sp: (stack_address + TASK_STACK_SIZE) as usize,
                    pc: entry_point,
                    priority,
                    stack: [0u8; TASK_STACK_SIZE],
                state: TaskState::Ready,
                })),
    {
        let mut id: usize = 0;
        while id < MAX_TASKS
            invariant
                id <= MAX_TASKS,
                self.wf(),
                self.tasks_spec() == old(self).tasks_spec(),
                self.current_spec() == old(self).current_spec(),
                stack_address + TASK_STACK_SIZE <= usize::MAX,
                forall|j: int| 0 <= j < id ==> (#[trigger] old(self).tasks_spec()[j]) is Some,
            decreases MAX_TASKS - id,
        {
            if self.tasks[id].is_none() {
                let mut new_task = Task::new(id as u32, entry_point, priority);
                new_task.setup_stack(stack_address);
                self.tasks.set(id, Some(new_task));
                return Err(TaskCreationError);
            }
            id += 1;
        }
        Err(TaskCreationError)
    }

    /// Picks the task to run at tick count `ticks` (see `pick`), makes its slot
    /// current and marks it running: a ready task is started, a stored or
    /// blocked one resumed. `Stay` when no task may run.
    pub fn cycle(&mut self, ticks: u32) -> (action: Dispatch)
        requires
            old(self).wf(),
        ensures
            final(self).wf(),
            match pick(old(self).tasks_spec(), ticks, MAX_TASKS as int) {
                None => {
                    &&& action == Dispatch::Stay
                    &&& final(self).tasks_spec() == old(self).tasks_spec()
                    &&& final(self).current_spec() == old(self).current_spec()
                },
                Some(i) => {
                    let t = old(self).tasks_spec()[i]->0;
                    &&& final(self).current_spec() == i
                    &&& final(self).tasks_spec() == old(self).tasks_spec().update(i, Some(Task { state: TaskState::Running, ..t }))
                    &&& action == if t.state == TaskState::Ready {
                        Dispatch::Switch { sp: t.sp, pc: t.pc }
                    } else {
                        Dispatch::Restore { sp: t.sp, pc: t.pc }
                    }
                },
            },
    {
        let mut highest_priority: Option<(u32, u8)> = None;
        let mut i: usize = 0;
        while i < MAX_TASKS
            invariant
                i <= MAX_TASKS,
                self.wf(),
                self.tasks_spec() == old(self).tasks_spec(),
                self.current_spec() == old(self).current_spec(),
                match pick(self.tasks_spec(), ticks, i as int) {
                    None => highest_priority is None,
                    Some(b) => highest_priority == Some((b as u32, self.tasks_spec()[b]->0.priority)) && 0 <= b < i,
                },
            decreases MAX_TASKS - i,
        {
            if let Some(task) = &self.tasks[i] {
                if task.state.executable(ticks) {
                    match highest_priority {
                        None => highest_priority = Some((task.id, task.priority)),
                        Some((_, priority)) => {
                            if task.priority < priority {
                                highest_priority = Some((task.id, task.priority));
                            }
                        },
                    }
                }
            }
            i += 1;
        }
        proof { lemma_pick_eligible(self.tasks_spec(), ticks, MAX_TASKS as int); }
        let task_id = match highest_priority {
            Some((id, _)) => id,
            None => return Dispatch::Stay,
        };
        self.current_task = task_id as usize;
        let task = match self.current() {
            Some(task) => task,
            None => return Dispatch::Stay,
        };
        match task.state {
            TaskState::Ready => {
                task.state = TaskState::Running;
                Dispatch::Switch { sp: task.sp, pc: task.pc }
            },
            TaskState::Stored => {
                task.state = TaskState::Running;
                Dispatch::Restore { sp: task.sp, pc: task.pc }
            },
            TaskState::Blocked(_) => {
                task.state = TaskState::Running;
                Dispatch::Restore { sp: task.sp, pc: task.pc }
            },
            _ => Dispatch::Stay,
        }
    }

    /// The running task was preempted: saves where it resumes, marks it
    /// stored, and picks the next task (see `cycle`).
    pub fn save_context(&mut self, sp: usize, pc: usize, ticks: u32) -> (action: Dispatch)
        requires
            old(self).wf(),
        ensures
            final(self).wf(),
            ({
                let saved = match old(self).tasks_spec()[old(self).current_spec() as int] {
                    Some(t) => old(self).tasks_spec().update(
                        old(self).current_spec() as int,
                        Some(Task { sp, pc, state: TaskState::Stored, ..t }),
                    ),
                    None => old(self).tasks_spec(),
                };
                cycled_from(saved, old(self).current_spec(), ticks, *final(self), action)
            }),
    {
        if let Some(task) = self.current() {
            task.sp = sp;
            task.pc = pc;
            task.state = TaskState::Stored;
        }
        self.cycle(ticks)
    }

    /// The running task waits until tick count `until`: saves where it
    /// resumes, marks it blocked, and picks the next task (see `cycle`).
    pub fn yield_context(&mut self, sp: usize, pc: usize, until: u32, ticks: u32) -> (action: Dispatch)
        requires
            old(self).wf(),
        ensures
            final(self).wf(),
            ({
                let saved = match old(self).tasks_spec()[old(self).current_spec() as int] {
                    Some(t) => old(self).tasks_spec().update(
                        old(self).current_spec() as int,
                        Some(Task { sp, pc, state: TaskState::Blocked(until), ..t }),
                    ),
                    None => old(self).tasks_spec(),
                };
                cycled_from(saved, old(self).current_spec(), ticks, *final(self), action)
            }),
    {
        if let Some(task) = self.current() {
            task.sp = sp;
            task.pc = pc;
            task.state = TaskState::Blocked(until);
        }
        self.cycle(ticks)
    }
}

} // verus!
