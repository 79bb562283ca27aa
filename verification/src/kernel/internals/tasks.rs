use vstd::prelude::*;
use crate::shared::interrupts::Cpu;
use crate::shared::memory::heap::{BumpAllocator, allocated, is_power_of_two};
use crate::internals::mmu::{Cp15, Mmu, L2SmallPageTableEntry, TlbOperation};
use crate::internals::mmu::frames::{FrameMemory, pool_offset, written};
use crate::internals::mmu::l2::{AccessPermissions, Cp15Update, is_first_free, frame_address, frame_index, tlb_entry_operand, L2_FAULT_PAGE_TABLE_ENTRY, PAGE_SIZE};

verus! {

/// Number of task slots.
pub const MAX_TASKS: usize = 4;
/// Bytes at the top of a task's data page kept for its stack, out of reach of its heap.
pub const STACK_GUARD: usize = 1024;
/// No task heap reaches past this address: it is the end of the data page.
pub const HEAP_LIMIT: usize = 0x2000;
/// Virtual address of every task's code page.
pub const CODE_PAGE_LOCATION: u32 = 0x0;
/// Virtual address of every task's data page (heap and stack).
pub const DATA_PAGE_LOCATION: u32 = 0x1000;

/// The life cycle of a task.
#[derive(Clone, Copy, PartialEq, Eq, Structural)]
pub enum TaskState {
    /// Created, never run: starts at its entry point.
    Ready,
    /// On the processor.
    Running,
    /// Finished or never created: its slot is free.
    Terminated,
    /// Yielded until the millisecond count reaches `until`.
    Waiting { until: u32 },
    /// Yielded with its context saved: resumes where it left off.
    Stored,
}

/// Whether a task in `state` may be scheduled at time `now`.
pub open spec fn executable_at(state: TaskState, now: u32) -> bool {
    match state {
        TaskState::Ready | TaskState::Stored => true,
        TaskState::Waiting { until } => now >= until,
        _ => false,
    }
}

/// The state a task is in after the scheduler looked at it at time `now`:
/// a wait that has run out becomes `Stored`.
pub open spec fn checked_state(state: TaskState, now: u32) -> TaskState {
    match state {
        TaskState::Waiting { until } => if now >= until { TaskState::Stored } else { state },
        _ => state,
    }
}

/// Where a task resumes: its stack pointer and program counter.
#[derive(Clone, Copy, PartialEq, Eq, Structural)]
pub struct TaskContext {
    pub sp: u32,
    pub pc: u32,
}

/// A task slot: its state, saved context, heap allocator and its two pages.
pub struct Task {
    id: usize,
    state: TaskState,
    context: TaskContext,
    allocator: BumpAllocator,
    code_page: L2SmallPageTableEntry,
    data_page: L2SmallPageTableEntry,
}

impl Task {
    #[verifier::type_invariant]
    spec fn inv(&self) -> bool {
        &&& self.id < MAX_TASKS
        &&& self.code_page.virtual_address() >> 12 < 256
        &&& self.data_page.virtual_address() >> 12 < 256
        &&& self.allocator.next() <= self.allocator.heap_end() <= HEAP_LIMIT
    }

    /// The slot number.
    pub closed spec fn id_spec(&self) -> usize {
        self.id
    }

    /// The task's state.
    pub closed spec fn state_spec(&self) -> TaskState {
        self.state
    }

    /// Where the task resumes.
    pub closed spec fn context_spec(&self) -> TaskContext {
        self.context
    }

    /// The task's heap allocator.
    pub closed spec fn allocator_spec(&self) -> BumpAllocator {
        self.allocator
    }

    /// `self` with state `state`.
    pub closed spec fn with_state(self, state: TaskState) -> Task {
        Task { state, ..self }
    }

    /// `self` resuming at `context`.
    pub closed spec fn with_context(self, context: TaskContext) -> Task {
        Task { context, ..self }
    }

    /// The page holding the task's code.
    pub closed spec fn code_page_spec(&self) -> L2SmallPageTableEntry {
        self.code_page
    }

    /// The page holding the task's heap and stack.
    pub closed spec fn data_page_spec(&self) -> L2SmallPageTableEntry {
        self.data_page
    }

    /// An unused slot: id 0, terminated, zero context, an empty heap and no pages.
    pub fn empty() -> (t: Self)
        ensures
            t.id_spec() == 0,
            t.state_spec() == TaskState::Terminated,
            t.context_spec() == (TaskContext { sp: 0, pc: 0 }),
            t.allocator_spec().heap_start() == 0,
            t.allocator_spec().heap_end() == 0,
            t.allocator_spec().next() == 0,
            t.code_page_spec().asid() is None,
            t.code_page_spec().virtual_address() == 0,
            t.code_page_spec().physical_address() == 0,
            t.data_page_spec().asid() is None,
            t.data_page_spec().virtual_address() == 0,
            t.data_page_spec().physical_address() == 0,
            is_unused(t),
    {
        let code_page = L2SmallPageTableEntry::empty();
        let data_page = L2SmallPageTableEntry::empty();
        assert(0u32 >> 12 < 256) by (bit_vector);
        let t = Task {
            id: 0,
            state: TaskState::Terminated,
            context: TaskContext { sp: 0, pc: 0 },
            allocator: BumpAllocator::new(),
            code_page,
            data_page,
        };
        t
    }

    /// The slot number.
    pub fn id(&self) -> (id: usize)
        ensures
            id == self.id_spec(),
            id < MAX_TASKS,
    {
        proof { use_type_invariant(self); }
        self.id
    }

    /// The task's state.
    pub fn state(&self) -> (s: TaskState)
        ensures
            s == self.state_spec(),
    {
        self.state
    }

    /// Where the task resumes.
    pub fn context(&self) -> (c: TaskContext)
        ensures
            c == self.context_spec(),
    {
        self.context
    }

    /// Gives the task a slot number.
    pub fn set_id(&mut self, id: usize)
        requires
            id < MAX_TASKS,
        ensures
            final(self).id_spec() == id,
            final(self).state_spec() == old(self).state_spec(),
            final(self).context_spec() == old(self).context_spec(),
            final(self).allocator_spec() == old(self).allocator_spec(),
            final(self).code_page_spec() == old(self).code_page_spec(),
            final(self).data_page_spec() == old(self).data_page_spec(),
    {
        proof { use_type_invariant(&*self); }
        self.id = id;
    }

    /// Sets the task's state.
    pub fn set_state(&mut self, state: TaskState)
        ensures
            final(self).state_spec() == state,
            *final(self) == old(self).with_state(state),
            final(self).id_spec() == old(self).id_spec(),
            final(self).context_spec() == old(self).context_spec(),
            final(self).allocator_spec() == old(self).allocator_spec(),
            final(self).code_page_spec() == old(self).code_page_spec(),
            final(self).data_page_spec() == old(self).data_page_spec(),
    {
        proof { use_type_invariant(&*self); }
        self.state = state;
    }

    /// Saves where the task resumes.
    pub fn set_context(&mut self, context: TaskContext)
        ensures
            final(self).context_spec() == context,
            *final(self) == old(self).with_context(context),
            final(self).id_spec() == old(self).id_spec(),
            final(self).state_spec() == old(self).state_spec(),
            final(self).allocator_spec() == old(self).allocator_spec(),
            final(self).code_page_spec() == old(self).code_page_spec(),
            final(self).data_page_spec() == old(self).data_page_spec(),
    {
        proof { use_type_invariant(&*self); }
        self.context = context;
    }

    /// Allocates from the task's heap (see `BumpAllocator::allocate`).
    pub fn allocate(&mut self, cpu: &mut Cpu, size: usize, align: usize) -> (ptr: usize)
        requires
            is_power_of_two(align),
            align <= 0x8000_0000,
        ensures
            final(cpu).cpsr == old(cpu).cpsr,
            ptr <= HEAP_LIMIT,
            allocated(old(self).allocator_spec(), final(self).allocator_spec(), size, align, ptr),
            final(self).id_spec() == old(self).id_spec(),
            final(self).state_spec() == old(self).state_spec(),
            final(self).context_spec() == old(self).context_spec(),
            final(self).code_page_spec() == old(self).code_page_spec(),
            final(self).data_page_spec() == old(self).data_page_spec(),
    {
        proof { use_type_invariant(&*self); }
        let mut allocator = BumpAllocator::new();
        std::mem::swap(&mut allocator, &mut self.allocator);
        let ptr = allocator.allocate(cpu, size, align);
        self.allocator = allocator;
        ptr
    }

    /// Gives a block back to the task's heap; a bump allocator keeps it.
    pub fn deallocate(&self, ptr: usize, size: usize, align: usize) {
        self.allocator.deallocate(ptr, size, align);
    }

    /// The page holding the task's code.
    pub fn code_page(&self) -> (p: &L2SmallPageTableEntry)
        ensures
            *p == self.code_page_spec(),
    {
        &self.code_page
    }

    /// The page holding the task's heap and stack.
    pub fn data_page(&self) -> (p: &L2SmallPageTableEntry)
        ensures
            *p == self.data_page_spec(),
    {
        &self.data_page
    }

    /// Whether the task may run at time `now`; a wait that has run out turns
    /// into `Stored` on the way.
    pub fn executable(&mut self, now: u32) -> (r: bool)
        ensures
            r == executable_at(old(self).state_spec(), now),
            final(self).state_spec() == checked_state(old(self).state_spec(), now),
            *final(self) == old(self).with_state(checked_state(old(self).state_spec(), now)),
            final(self).id_spec() == old(self).id_spec(),
            final(self).context_spec() == old(self).context_spec(),
            final(self).allocator_spec() == old(self).allocator_spec(),
            final(self).code_page_spec() == old(self).code_page_spec(),
            final(self).data_page_spec() == old(self).data_page_spec(),
    {
        proof { use_type_invariant(&*self); }
        match self.state {
            TaskState::Ready | TaskState::Stored => true,
            TaskState::Waiting { until } => {
                if now >= until {
                    self.state = TaskState::Stored;
                    true
                } else {
                    false
                }
            },
            _ => false,
        }
    }

    /// Ends the task: it is marked terminated and both its pages are unmapped
    /// and their frames freed (data page first, then code page).
    pub fn terminate(&mut self, mmu: &mut Mmu)
        ensures
            final(self).state_spec() == TaskState::Terminated,
            *final(self) == old(self).with_state(TaskState::Terminated),
            final(self).id_spec() == old(self).id_spec(),
            final(self).context_spec() == old(self).context_spec(),
            final(self).allocator_spec() == old(self).allocator_spec(),
            final(self).code_page_spec() == old(self).code_page_spec(),
            final(self).data_page_spec() == old(self).data_page_spec(),
            unmapped_both(*old(mmu), *final(mmu), old(self).code_page_spec(), old(self).data_page_spec()),
    {
        proof { use_type_invariant(&*self); }
        self.state = TaskState::Terminated;
        self.data_page.unregister(mmu);
        self.code_page.unregister(mmu);
    }
}

/// `used` with the pool frame behind `physical_address` marked free.
pub open spec fn freed(used: Seq<bool>, physical_address: u32) -> Seq<bool> {
    match frame_index(physical_address) {
        Some(i) => used.update(i, false),
        None => used,
    }
}

/// `after` is `before` with the data page and then the code page of a task
/// unmapped, their frames freed and their TLB entries invalidated.
pub open spec fn unmapped_both(before: Mmu, after: Mmu, code: L2SmallPageTableEntry, data: L2SmallPageTableEntry) -> bool {
    &&& after.level2() == before.level2().update((data.virtual_address() >> 12) as int, L2_FAULT_PAGE_TABLE_ENTRY)
        .update((code.virtual_address() >> 12) as int, L2_FAULT_PAGE_TABLE_ENTRY)
    &&& after.used_pages() == freed(freed(before.used_pages(), data.physical_address()), code.physical_address())
    &&& after.tlb_log() == before.tlb_log()
        .push(TlbOperation::Entry(tlb_entry_operand(data.virtual_address(), data.asid())))
        .push(TlbOperation::Entry(tlb_entry_operand(code.virtual_address(), code.asid())))
    &&& after.level1() == before.level1()
    &&& after.level1_address() == before.level1_address()
    &&& after.level2_address() == before.level2_address()
    &&& after.registers() == before.registers()
}

} // verus!

verus! {

/// Slot `k` steps after `start`, going round the slots.
pub open spec fn slot(start: int, k: int) -> int {
    (start + k) % (MAX_TASKS as int)
}

/// The first slot, going round from `start` and beginning `k` steps after it,
/// whose task satisfies `p`.
pub open spec fn scan_from(tasks: Seq<Task>, start: int, k: int, p: spec_fn(Task) -> bool) -> Option<int>
    decreases MAX_TASKS - k,
{
    if k >= MAX_TASKS || k < 0 {
        None
    } else if p(tasks[slot(start, k)]) {
        Some(slot(start, k))
    } else {
        scan_from(tasks, start, k + 1, p)
    }
}

/// The first slot, going round from `start`, whose task satisfies `p`.
pub open spec fn find_first(tasks: Seq<Task>, start: int, p: spec_fn(Task) -> bool) -> Option<int> {
    scan_from(tasks, start, 0, p)
}

/// What the kernel does after a scheduling decision.
#[derive(Clone, Copy, PartialEq, Eq, Structural)]
pub enum ContextSwitch {
    /// No task to run: stay in the kernel loop.
    Stay,
    /// Start a new task at `pc` with stack `sp`.
    Switch { sp: u32, pc: u32 },
    /// Resume a task whose context was saved.
    Restore { sp: u32, pc: u32 },
}

/// The task slots and which of them runs.
pub struct Scheduler {
    tasks: Vec<Task>,
    current_index: Option<usize>,
}

impl Scheduler {
    /// The task slots.
    pub closed spec fn tasks_spec(&self) -> Seq<Task> {
        self.tasks@
    }

    /// The slot last scheduled.
    pub closed spec fn current_index_spec(&self) -> Option<usize> {
        self.current_index
    }

    /// Where a round of the slots starts: the current slot, or slot 0.
    pub open spec fn start(&self) -> int {
        match self.current_index_spec() {
            Some(i) => i as int,
            None => 0,
        }
    }

    /// There are `MAX_TASKS` slots and the current one is one of them.
    pub open spec fn wf(&self) -> bool {
        &&& self.tasks_spec().len() == MAX_TASKS
        &&& self.current_index_spec() matches Some(i) ==> i < MAX_TASKS
    }

    /// `MAX_TASKS` unused slots, none current.
    pub fn new() -> (s: Self)
        ensures
            s.wf(),
            s.current_index_spec() is None,
            forall|i: int| 0 <= i < MAX_TASKS ==> is_unused(#[trigger] s.tasks_spec()[i]),
    {
        let mut tasks: Vec<Task> = Vec::new();
        let mut i: usize = 0;
        while i < MAX_TASKS
            invariant
                i <= MAX_TASKS,
                tasks.len() == i,
                forall|j: int| 0 <= j < i ==> is_unused(#[trigger] tasks@[j]),
            decreases MAX_TASKS - i,
        {
            tasks.push(Task::empty());
            i += 1;
        }
        Scheduler { tasks, current_index: None }
    }

    /// Numbers the slots: the task of slot `i` gets id `i`.
    pub fn init(&mut self)
        requires
            old(self).wf(),
        ensures
            final(self).wf(),
            final(self).current_index_spec() == old(self).current_index_spec(),
            forall|i: int| 0 <= i < MAX_TASKS ==> {
                let t = #[trigger] final(self).tasks_spec()[i];
                let o = old(self).tasks_spec()[i];
                &&& t.id_spec() == i
                &&& t.state_spec() == o.state_spec()
                &&& t.context_spec() == o.context_spec()
                &&& t.allocator_spec() == o.allocator_spec()
                &&& t.code_page_spec() == o.code_page_spec()
                &&& t.data_page_spec() == o.data_page_spec()
            },
    {
        let mut i: usize = 0;
        while i < MAX_TASKS
            invariant
                i <= MAX_TASKS,
                self.wf(),
                self.current_index_spec() == old(self).current_index_spec(),
                forall|j: int| 0 <= j < MAX_TASKS ==> {
                    let t = #[trigger] self.tasks_spec()[j];
                    let o = old(self).tasks_spec()[j];
                    &&& t.id_spec() == if j < i { j } else { o.id_spec() as int }
                    &&& t.state_spec() == o.state_spec()
                    &&& t.context_spec() == o.context_spec()
                    &&& t.allocator_spec() == o.allocator_spec()
                    &&& t.code_page_spec() == o.code_page_spec()
                    &&& t.data_page_spec() == o.data_page_spec()
                },
            decreases MAX_TASKS - i,
        {
            let task = self.task_mut(i);
            task.set_id(i);
            i += 1;
        }
    }

    /// The task of slot `index`.
    pub fn task(&self, index: usize) -> (t: &Task)
        requires
            self.wf(),
            index < MAX_TASKS,
        ensures
            *t == self.tasks_spec()[index as int],
    {
        &self.tasks[index]
    }

    /// The task of slot `index`, to change.
    pub fn task_mut(&mut self, index: usize) -> (t: &mut Task)
        requires
            old(self).wf(),
            index < MAX_TASKS,
        ensures
            *t == old(self).tasks_spec()[index as int],
            final(self).tasks_spec() == old(self).tasks_spec().update(index as int, *final(t)),
            final(self).current_index_spec() == old(self).current_index_spec(),
    {
        &mut self.tasks[index]
    }

    /// The slot last scheduled.
    pub fn current_index(&self) -> (r: Option<usize>)
        ensures
            r == self.current_index_spec(),
    {
        self.current_index
    }

    /// The task on the processor: the current slot's task, when it is running.
    pub fn current(&mut self) -> (r: Option<&mut Task>)
        requires
            old(self).wf(),
        ensures
            match old(self).current_index_spec() {
                Some(i) if old(self).tasks_spec()[i as int].state_spec() == TaskState::Running => {
                    &&& r matches Some(t)
                    &&& *t == old(self).tasks_spec()[i as int]
                    &&& final(self).tasks_spec() == old(self).tasks_spec().update(i as int, *final(t))
                    &&& final(self).current_index_spec() == old(self).current_index_spec()
                },
                _ => r is None && final(self).tasks_spec() == old(self).tasks_spec()
                    && final(self).current_index_spec() == old(self).current_index_spec(),
            },
    {
        match self.current_index {
            Some(index) => {
                if self.tasks[index].state() == TaskState::Running {
                    Some(&mut self.tasks[index])
                } else {
                    None
                }
            },
            None => None,
        }
    }

    /// Moves the current slot on to the next one, round the slots.
    pub fn cycle(&mut self)
        requires
            old(self).wf(),
        ensures
            final(self).wf(),
            final(self).tasks_spec() == old(self).tasks_spec(),
            final(self).current_index_spec() == match old(self).current_index_spec() {
                Some(i) => Some(((i + 1) % (MAX_TASKS as int)) as usize),
                None => None,
            },
    {
        if let Some(index) = self.current_index {
            self.current_index = Some((index + 1) % MAX_TASKS);
        }
    }

    /// The first task in state `state`, going round the slots from the current one.
    pub fn task_with_state(&self, state: TaskState) -> (r: Option<&Task>)
        requires
            self.wf(),
        ensures
            match find_first(self.tasks_spec(), self.start(), in_state(state)) {
                Some(i) => r matches Some(t) && *t == self.tasks_spec()[i],
                None => r is None,
            },
    {
        let initial_index = match self.current_index {
            Some(i) => i,
            None => 0,
        };
        let ghost p = in_state(state);
        let mut k: usize = 0;
        while k < MAX_TASKS
            invariant
                self.wf(),
                initial_index == self.start(),
                k <= MAX_TASKS,
                p == in_state(state),
                find_first(self.tasks_spec(), self.start(), p) == scan_from(self.tasks_spec(), self.start(), k as int, p),
            decreases MAX_TASKS - k,
        {
            let index = (initial_index + k) % MAX_TASKS;
            assert(index == slot(self.start(), k as int));
            assert(scan_from(self.tasks_spec(), self.start(), k as int, p) == if p(self.tasks_spec()[index as int]) {
                Some(index as int)
            } else {
                scan_from(self.tasks_spec(), self.start(), k + 1, p)
            });
            assert(p(self.tasks_spec()[index as int]) == (self.tasks_spec()[index as int].state_spec() == state));
            if self.tasks[index].state() == state {
                return Some(&self.tasks[index]);
            }
            k += 1;
        }
        None
    }

    /// The first task that may run at time `now`, going round the slots from the
    /// current one; a wait that has run out turns into `Stored` on the way.
    pub fn next_task(&mut self, now: u32) -> (r: Option<&mut Task>)
        requires
            old(self).wf(),
        ensures
            final(self).wf(),
            final(self).current_index_spec() == old(self).current_index_spec(),
            match find_first(old(self).tasks_spec(), old(self).start(), runnable_at(now)) {
                Some(i) => {
                    &&& r matches Some(t)
                    &&& *t == checked(old(self).tasks_spec()[i], now)
                    &&& final(self).tasks_spec() == old(self).tasks_spec().update(i, *final(t))
                },
                None => r is None && final(self).tasks_spec() == old(self).tasks_spec(),
            },
    {
        let initial_index = match self.current_index {
            Some(i) => i,
            None => 0,
        };
        let ghost p = runnable_at(now);
        let mut k: usize = 0;
        while k < MAX_TASKS
            invariant
                self.wf(),
                self.tasks_spec() == old(self).tasks_spec(),
                self.current_index_spec() == old(self).current_index_spec(),
                initial_index == self.start(),
                k <= MAX_TASKS,
                p == runnable_at(now),
                find_first(self.tasks_spec(), self.start(), p) == scan_from(self.tasks_spec(), self.start(), k as int, p),
            decreases MAX_TASKS - k,
        {
            let index = (initial_index + k) % MAX_TASKS;
            assert(index == slot(self.start(), k as int));
            assert(scan_from(self.tasks_spec(), self.start(), k as int, p) == if p(self.tasks_spec()[index as int]) {
                Some(index as int)
            } else {
                scan_from(self.tasks_spec(), self.start(), k + 1, p)
            });
            let ghost before = self.tasks_spec();
            let task = self.task_mut(index);
            let runnable = task.executable(now);
            if runnable {
                return Some(self.task_mut(index));
            }
            assert(self.tasks_spec() =~= before);
            k += 1;
        }
        None
    }

    /// Starts a task in the first terminated slot (going round from the current
    /// one): it gets the first free frame of the pool as its code page, mapped
    /// at `CODE_PAGE_LOCATION`, and the next as its data page, mapped at
    /// `DATA_PAGE_LOCATION`, both in the address space of its id; its stack
    /// starts at the top of the data page and its heap fills the data page below
    /// the stack guard, and `code` is copied to the start of its code page's
    /// frame. Returns the task's id; `None` when no slot is terminated
    /// or the pool runs out of frames (a code frame taken before the pool ran out
    /// stays taken).
    pub fn create_task(&mut self, mmu: &mut Mmu, cpu: &mut Cpu, memory: &mut FrameMemory, code: &[u8]) -> (r: Option<usize>)
        requires
            old(self).wf(),
            old(memory).wf(),
            code@.len() <= PAGE_SIZE,
        ensures
            final(self).wf(),
            final(memory).wf(),
            match find_first(old(self).tasks_spec(), old(self).start(), in_state(TaskState::Terminated)) {
                Some(j) => r is Some ==> written(
                    old(memory)@,
                    final(memory)@,
                    pool_offset(final(self).tasks_spec()[old(self).tasks_spec()[j].id_spec() as int].code_page_spec().physical_address()),
                    code@,
                ),
                None => true,
            },
            r is None ==> final(memory)@ == old(memory)@,
            final(cpu).cpsr == old(cpu).cpsr,
            final(self).current_index_spec() == old(self).current_index_spec(),
            match find_first(old(self).tasks_spec(), old(self).start(), in_state(TaskState::Terminated)) {
                None => r is None && final(self).tasks_spec() == old(self).tasks_spec() && mmu_unchanged(*old(mmu), *final(mmu)),
                Some(j) => {
                    let id = old(self).tasks_spec()[j].id_spec();
                    match r {
                        Some(created) => exists|a: int, b: int|
                            #![trigger is_first_free(old(mmu).used_pages(), a), is_first_free(old(mmu).used_pages().update(a, true), b)]
                        {
                            &&& created == old(self).tasks_spec()[id as int].id_spec()
                            &&& is_first_free(old(mmu).used_pages(), a)
                            &&& is_first_free(old(mmu).used_pages().update(a, true), b)
                            &&& only_frames_changed(*old(mmu), *final(mmu), old(mmu).used_pages().update(a, true).update(b, true))
                            &&& final(self).tasks_spec().len() == MAX_TASKS
                            &&& forall|i: int| 0 <= i < MAX_TASKS && i != id ==> #[trigger] final(self).tasks_spec()[i] == old(self).tasks_spec()[i]
                            &&& is_fresh(final(self).tasks_spec()[id as int], created, id, a, b)
                        },
                        None => {
                            &&& final(self).tasks_spec() == old(self).tasks_spec()
                            &&& {
                                ||| (forall|i: int| 0 <= i < 256 ==> #[trigger] old(mmu).used_pages()[i]) && mmu_unchanged(*old(mmu), *final(mmu))
                                ||| exists|a: int| {
                                    &&& is_first_free(old(mmu).used_pages(), a)
                                    &&& forall|i: int| 0 <= i < 256 ==> #[trigger] old(mmu).used_pages().update(a, true)[i]
                                    &&& only_frames_changed(*old(mmu), *final(mmu), old(mmu).used_pages().update(a, true))
                                }
                            }
                        },
                    }
                },
            },
    {
        let ghost fj = find_first(self.tasks_spec(), self.start(), in_state(TaskState::Terminated));
        let task_id = match self.task_with_state(TaskState::Terminated) {
            Some(task) => task.id(),
            None => return None,
        };
        assert(fj is Some && old(self).tasks_spec()[fj->0].id_spec() == task_id);
        let ghost m0 = *mmu;
        let code_page = match L2SmallPageTableEntry::try_new(mmu, CODE_PAGE_LOCATION, Some(task_id as u32)) {
            Some(page) => page,
            None => return None,
        };
        let ghost a = choose|a: int| {
            &&& is_first_free(m0.used_pages(), a)
            &&& mmu.used_pages() == m0.used_pages().update(a, true)
            &&& code_page.physical_address() == frame_address(a)
            &&& code_page.virtual_address() == CODE_PAGE_LOCATION
            &&& code_page.asid() == Some(task_id as u32)
            &&& code_page.permissions() == AccessPermissions::Full
        };
        let ghost m1 = *mmu;
        let data_page = match L2SmallPageTableEntry::try_new(mmu, DATA_PAGE_LOCATION, Some(task_id as u32)) {
            Some(page) => page,
            None => return None,
        };
        let ghost b = choose|b: int| {
            &&& is_first_free(m1.used_pages(), b)
            &&& mmu.used_pages() == m1.used_pages().update(b, true)
            &&& data_page.physical_address() == frame_address(b)
            &&& data_page.virtual_address() == DATA_PAGE_LOCATION
            &&& data_page.asid() == Some(task_id as u32)
            &&& data_page.permissions() == AccessPermissions::Full
        };
        proof {
            m0.lemma_wf();
            assert(0 <= a < 256);
        }
        memory.write(code_page.frame(), code);
        let sp = data_page.end();
        let pc = code_page.start();
        let mut allocator = BumpAllocator::new();
        allocator.init(cpu, data_page.start() as usize, data_page.end() as usize - STACK_GUARD);
        assert(0u32 >> 12 < 256) by (bit_vector);
        assert(0x1000u32 >> 12 < 256) by (bit_vector);
        let task = self.task_mut(task_id);
        let id = task.id();
        *task = Task {
            id,
            state: TaskState::Ready,
            context: TaskContext { sp, pc },
            allocator,
            code_page,
            data_page,
        };
        assert(only_frames_changed(m0, *mmu, m0.used_pages().update(a, true).update(b, true)));
        assert(is_fresh(self.tasks_spec()[task_id as int], id, task_id, a, b));
        assert(forall|i: int| 0 <= i < MAX_TASKS && i != task_id ==> #[trigger] self.tasks_spec()[i] == old(self).tasks_spec()[i]);
        assert(is_first_free(old(mmu).used_pages(), a));
        assert(is_first_free(old(mmu).used_pages().update(a, true), b));
        assert(only_frames_changed(*old(mmu), *mmu, old(mmu).used_pages().update(a, true).update(b, true)));
        assert(self.tasks_spec().len() == MAX_TASKS);
        assert(id == old(self).tasks_spec()[task_id as int].id_spec());
        Some(id)
    }

    /// Picks the next task that may run at time `now` (see `next_task`) and
    /// makes its slot the current one. A task that is ready or stored is marked
    /// running and its code and data pages are mapped; the result says whether
    /// to start it or to resume it, and where. `Stay` when no task may run.
    pub fn switch(&mut self, mmu: &mut Mmu, now: u32) -> (action: ContextSwitch)
        requires
            old(self).wf(),
        ensures
            final(self).wf(),
            switched(*old(self), *final(self), *old(mmu), *final(mmu), now, action),
    {
        let next = match self.next_task(now) {
            Some(task) => Some(task.id()),
            None => None,
        };
        let action = match next {
            None => ContextSwitch::Stay,
            Some(next_task_id) => {
                self.current_index = Some(next_task_id);
                let task = self.task_mut(next_task_id);
                proof { use_type_invariant(&*task); }
                match task.state() {
                    TaskState::Ready => {
                        task.set_state(TaskState::Running);
                        task.code_page().register(mmu);
                        task.data_page().register(mmu);
                        let context = task.context();
                        ContextSwitch::Switch { sp: context.sp, pc: context.pc }
                    },
                    TaskState::Stored => {
                        task.set_state(TaskState::Running);
                        task.code_page().register(mmu);
                        task.data_page().register(mmu);
                        let context = task.context();
                        ContextSwitch::Restore { sp: context.sp, pc: context.pc }
                    },
                    _ => ContextSwitch::Stay,
                }
            },
        };
        proof {
            lemma_switched(*old(self), *self, *old(mmu), *mmu, now, action);
        }
        action
    }
}

/// The creation of a task (see `Scheduler::create_task`): `after` and
/// `mmu_after` are `before` and `mmu_before` once a task was started in the
/// first terminated slot, and `r` is its id (`None` when none could be).
pub open spec fn task_created(
    before: Scheduler,
    after: Scheduler,
    mmu_before: Mmu,
    mmu_after: Mmu,
    r: Option<usize>,
) -> bool {
    match find_first(before.tasks_spec(), before.start(), in_state(TaskState::Terminated)) {
        None => r is None && after.tasks_spec() == before.tasks_spec() && mmu_unchanged(mmu_before, mmu_after),
        Some(j) => {
            let id = before.tasks_spec()[j].id_spec();
            match r {
                Some(created) => exists|a: int, b: int|
                    #![trigger is_first_free(mmu_before.used_pages(), a), is_first_free(mmu_before.used_pages().update(a, true), b)]
                {
                    &&& created == before.tasks_spec()[id as int].id_spec()
                    &&& is_first_free(mmu_before.used_pages(), a)
                    &&& is_first_free(mmu_before.used_pages().update(a, true), b)
                    &&& only_frames_changed(mmu_before, mmu_after, mmu_before.used_pages().update(a, true).update(b, true))
                    &&& after.tasks_spec().len() == MAX_TASKS
                    &&& forall|i: int| 0 <= i < MAX_TASKS && i != id ==> #[trigger] after.tasks_spec()[i] == before.tasks_spec()[i]
                    &&& is_fresh(after.tasks_spec()[id as int], created, id, a, b)
                },
                None => {
                    &&& after.tasks_spec() == before.tasks_spec()
                    &&& {
                        ||| (forall|i: int| 0 <= i < 256 ==> #[trigger] mmu_before.used_pages()[i]) && mmu_unchanged(mmu_before, mmu_after)
                        ||| exists|a: int| {
                            &&& is_first_free(mmu_before.used_pages(), a)
                            &&& forall|i: int| 0 <= i < 256 ==> #[trigger] mmu_before.used_pages().update(a, true)[i]
                            &&& only_frames_changed(mmu_before, mmu_after, mmu_before.used_pages().update(a, true))
                        }
                    }
                },
            }
        },
    }
}

/// Starts a task in the scheduler's first terminated slot (see `Scheduler::create_task`).
pub fn create_task(scheduler: &mut Scheduler, mmu: &mut Mmu, cpu: &mut Cpu, memory: &mut FrameMemory, code: &[u8]) -> (r: Option<usize>)
    requires
        old(scheduler).wf(),
        old(memory).wf(),
        code@.len() <= PAGE_SIZE,
    ensures
        final(scheduler).wf(),
        final(memory).wf(),
        match find_first(old(scheduler).tasks_spec(), old(scheduler).start(), in_state(TaskState::Terminated)) {
            Some(j) => r is Some ==> written(
                old(memory)@,
                final(memory)@,
                pool_offset(final(scheduler).tasks_spec()[old(scheduler).tasks_spec()[j].id_spec() as int].code_page_spec().physical_address()),
                code@,
            ),
            None => true,
        },
        r is None ==> final(memory)@ == old(memory)@,
        final(cpu).cpsr == old(cpu).cpsr,
        final(scheduler).current_index_spec() == old(scheduler).current_index_spec(),
        task_created(*old(scheduler), *final(scheduler), *old(mmu), *final(mmu), r),
{
    scheduler.create_task(mmu, cpu, memory, code)
}

/// Numbers the scheduler's slots (see `Scheduler::init`).
pub fn init(scheduler: &mut Scheduler)
    requires
        old(scheduler).wf(),
    ensures
        final(scheduler).wf(),
        final(scheduler).current_index_spec() == old(scheduler).current_index_spec(),
        forall|i: int| 0 <= i < MAX_TASKS ==> {
            let t = #[trigger] final(scheduler).tasks_spec()[i];
            let o = old(scheduler).tasks_spec()[i];
            &&& t.id_spec() == i
            &&& t.state_spec() == o.state_spec()
            &&& t.context_spec() == o.context_spec()
            &&& t.allocator_spec() == o.allocator_spec()
            &&& t.code_page_spec() == o.code_page_spec()
            &&& t.data_page_spec() == o.data_page_spec()
        },
{
    scheduler.init();
}

/// The scheduling decision at time `now` (see `Scheduler::switch`): `after`
/// and `mmu_after` are `before` and `mmu_before` once the next task that may
/// run was picked, and `action` says whether to start it, resume it or stay.
pub open spec fn switched(
    before: Scheduler,
    after: Scheduler,
    mmu_before: Mmu,
    mmu_after: Mmu,
    now: u32,
    action: ContextSwitch,
) -> bool {
    match find_first(before.tasks_spec(), before.start(), runnable_at(now)) {
        None => {
            &&& action == ContextSwitch::Stay
            &&& after.tasks_spec() == before.tasks_spec()
            &&& after.current_index_spec() == before.current_index_spec()
            &&& mmu_unchanged(mmu_before, mmu_after)
        },
        Some(i) => {
            let seen = before.tasks_spec().update(i, checked(before.tasks_spec()[i], now));
            let id = before.tasks_spec()[i].id_spec();
            let t = seen[id as int];
            &&& after.current_index_spec() == Some(id)
            &&& if t.state_spec() == TaskState::Ready || t.state_spec() == TaskState::Stored {
                &&& after.tasks_spec() == seen.update(id as int, t.with_state(TaskState::Running))
                &&& mapped_both(mmu_before, mmu_after, t.code_page_spec(), t.data_page_spec())
                &&& action == if t.state_spec() == TaskState::Ready {
                    ContextSwitch::Switch { sp: t.context_spec().sp, pc: t.context_spec().pc }
                } else {
                    ContextSwitch::Restore { sp: t.context_spec().sp, pc: t.context_spec().pc }
                }
            } else {
                &&& after.tasks_spec() == seen
                &&& mmu_unchanged(mmu_before, mmu_after)
                &&& action == ContextSwitch::Stay
            }
        },
    }
}

/// `switched` unfolded.
proof fn lemma_switched(before: Scheduler, after: Scheduler, mmu_before: Mmu, mmu_after: Mmu, now: u32, action: ContextSwitch)
    requires
        match find_first(before.tasks_spec(), before.start(), runnable_at(now)) {
            None => {
                &&& action == ContextSwitch::Stay
                &&& after.tasks_spec() =~= before.tasks_spec()
                &&& after.current_index_spec() == before.current_index_spec()
                &&& mmu_unchanged(mmu_before, mmu_after)
            },
            Some(i) => {
                let seen = before.tasks_spec().update(i, checked(before.tasks_spec()[i], now));
                let id = before.tasks_spec()[i].id_spec();
                let t = seen[id as int];
                &&& after.current_index_spec() == Some(id)
                &&& if t.state_spec() == TaskState::Ready || t.state_spec() == TaskState::Stored {
                    &&& after.tasks_spec() =~= seen.update(id as int, t.with_state(TaskState::Running))
                    &&& mapped_both(mmu_before, mmu_after, t.code_page_spec(), t.data_page_spec())
                    &&& action == if t.state_spec() == TaskState::Ready {
                        ContextSwitch::Switch { sp: t.context_spec().sp, pc: t.context_spec().pc }
                    } else {
                        ContextSwitch::Restore { sp: t.context_spec().sp, pc: t.context_spec().pc }
                    }
                } else {
                    &&& after.tasks_spec() =~= seen
                    &&& mmu_unchanged(mmu_before, mmu_after)
                    &&& action == ContextSwitch::Stay
                }
            },
        },
    ensures
        switched(before, after, mmu_before, mmu_after, now, action),
{
}

/// Whether a task may be scheduled at time `now`.
pub open spec fn runnable_at(now: u32) -> spec_fn(Task) -> bool {
    |t: Task| executable_at(t.state_spec(), now)
}

/// `t` after the scheduler looked at it at time `now`.
pub open spec fn checked(t: Task, now: u32) -> Task {
    t.with_state(checked_state(t.state_spec(), now))
}

/// `after` is `before` with `code` and then `data` mapped (see `L2SmallPageTableEntry::register`).
pub open spec fn mapped_both(before: Mmu, after: Mmu, code: L2SmallPageTableEntry, data: L2SmallPageTableEntry) -> bool {
    &&& after.level2() == before.level2().update((code.virtual_address() >> 12) as int, code.descriptor_spec())
        .update((data.virtual_address() >> 12) as int, data.descriptor_spec())
    &&& after.registers() == with_asid(with_asid(before.registers(), code.asid()), data.asid())
    &&& after.level1() == before.level1()
    &&& after.used_pages() == before.used_pages()
    &&& after.level1_address() == before.level1_address()
    &&& after.level2_address() == before.level2_address()
    &&& after.tlb_log() == before.tlb_log()
}

/// The CP15 registers after switching to address space `asid`, when there is one.
pub open spec fn with_asid(registers: Cp15, asid: Option<u32>) -> Cp15 {
    match asid {
        Some(a) => Cp15Update::context(registers, a),
        None => registers,
    }
}

/// A task with id `id` freshly created in slot `slot` with code frame `code`
/// and data frame `data`; its pages belong to the address space `slot`.
pub open spec fn is_fresh(t: Task, id: usize, slot: usize, code: int, data: int) -> bool {
    &&& t.id_spec() == id
    &&& t.state_spec() == TaskState::Ready
    &&& t.context_spec() == (TaskContext { sp: (DATA_PAGE_LOCATION + PAGE_SIZE - 4) as u32, pc: CODE_PAGE_LOCATION })
    &&& t.allocator_spec().heap_start() == DATA_PAGE_LOCATION
    &&& t.allocator_spec().heap_end() == DATA_PAGE_LOCATION + PAGE_SIZE - 4 - STACK_GUARD
    &&& t.allocator_spec().next() == DATA_PAGE_LOCATION
    &&& t.code_page_spec().asid() == Some(slot as u32)
    &&& t.code_page_spec().virtual_address() == CODE_PAGE_LOCATION
    &&& t.code_page_spec().physical_address() == frame_address(code)
    &&& t.code_page_spec().permissions() == AccessPermissions::Full
    &&& t.data_page_spec().asid() == Some(slot as u32)
    &&& t.data_page_spec().virtual_address() == DATA_PAGE_LOCATION
    &&& t.data_page_spec().physical_address() == frame_address(data)
    &&& t.data_page_spec().permissions() == AccessPermissions::Full
}

/// `after` has the same translation tables, frames, registers and TLB log as `before`.
pub open spec fn mmu_unchanged(before: Mmu, after: Mmu) -> bool {
    only_frames_changed(before, after, before.used_pages())
}

/// `after` is `before` with only the frame marks of the pool changed, to `used`.
pub open spec fn only_frames_changed(before: Mmu, after: Mmu, used: Seq<bool>) -> bool {
    &&& after.used_pages() == used
    &&& after.level1() == before.level1()
    &&& after.level2() == before.level2()
    &&& after.level1_address() == before.level1_address()
    &&& after.level2_address() == before.level2_address()
    &&& after.registers() == before.registers()
    &&& after.tlb_log() == before.tlb_log()
}

/// Whether a task is in state `state`.
pub open spec fn in_state(state: TaskState) -> spec_fn(Task) -> bool {
    |t: Task| t.state_spec() == state
}

/// Whether `t` is an unused slot as `Task::empty` makes it.
pub open spec fn is_unused(t: Task) -> bool {
    &&& t.id_spec() == 0
    &&& t.state_spec() == TaskState::Terminated
    &&& t.context_spec() == (TaskContext { sp: 0, pc: 0 })
    &&& t.allocator_spec().heap_start() == 0
    &&& t.allocator_spec().heap_end() == 0
    &&& t.allocator_spec().next() == 0
    &&& t.code_page_spec().asid() is None
    &&& t.code_page_spec().virtual_address() == 0
    &&& t.code_page_spec().physical_address() == 0
    &&& t.data_page_spec().asid() is None
    &&& t.data_page_spec().virtual_address() == 0
    &&& t.data_page_spec().physical_address() == 0
}

/// A task changed to state `state` keeps everything else.
pub proof fn lemma_with_state(t: Task, state: TaskState)
    ensures
        t.with_state(state).state_spec() == state,
        t.with_state(state).id_spec() == t.id_spec(),
        t.with_state(state).context_spec() == t.context_spec(),
        t.with_state(state).allocator_spec() == t.allocator_spec(),
        t.with_state(state).code_page_spec() == t.code_page_spec(),
        t.with_state(state).data_page_spec() == t.data_page_spec(),
{
}

/// A task given the context `context` keeps everything else.
pub proof fn lemma_with_context(t: Task, context: TaskContext)
    ensures
        t.with_context(context).context_spec() == context,
        t.with_context(context).id_spec() == t.id_spec(),
        t.with_context(context).state_spec() == t.state_spec(),
        t.with_context(context).allocator_spec() == t.allocator_spec(),
        t.with_context(context).code_page_spec() == t.code_page_spec(),
        t.with_context(context).data_page_spec() == t.data_page_spec(),
{
}

/// Whether a task holds a slot: it has not terminated.
pub open spec fn live(t: Task) -> bool {
    t.state_spec() != TaskState::Terminated
}

/// The pool frame of a task's code page.
pub open spec fn code_frame(t: Task) -> int {
    frame_index(t.code_page_spec().physical_address())->0
}

/// The pool frame of a task's data page.
pub open spec fn data_frame(t: Task) -> int {
    frame_index(t.data_page_spec().physical_address())->0
}

/// Both pages of `t` lie in pool frames that are marked in use, and in two
/// different ones.
pub open spec fn owns_frames(t: Task, used: Seq<bool>) -> bool {
    &&& frame_index(t.code_page_spec().physical_address()) is Some
    &&& frame_index(t.data_page_spec().physical_address()) is Some
    &&& used[code_frame(t)]
    &&& used[data_frame(t)]
    &&& code_frame(t) != data_frame(t)
}

/// No page of `a` shares a frame with a page of `b`.
pub open spec fn frames_apart(a: Task, b: Task) -> bool {
    &&& code_frame(a) != code_frame(b)
    &&& code_frame(a) != data_frame(b)
    &&& data_frame(a) != code_frame(b)
    &&& data_frame(a) != data_frame(b)
}

/// The memory of the tasks is kept apart: every task that holds a slot owns
/// two frames of the pool that are marked in use, and no two such tasks share
/// a frame.
pub open spec fn frames_owned(tasks: Seq<Task>, used: Seq<bool>) -> bool {
    &&& used.len() == 256
    &&& forall|i: int| 0 <= i < tasks.len() && live(#[trigger] tasks[i]) ==> owns_frames(tasks[i], used)
    &&& forall|i: int, j: int|
        0 <= i < tasks.len() && 0 <= j < tasks.len() && i != j && live(#[trigger] tasks[i]) && live(
            #[trigger] tasks[j],
        ) ==> frames_apart(tasks[i], tasks[j])
}

/// Tasks that keep their pages and whether they hold a slot, over a pool that
/// only gained marks, keep their frames apart.
pub proof fn lemma_frames_owned_kept(tasks: Seq<Task>, after: Seq<Task>, used: Seq<bool>, used_after: Seq<bool>)
    requires
        frames_owned(tasks, used),
        after.len() == tasks.len(),
        used_after.len() == 256,
        forall|k: int| 0 <= k < 256 && used[k] ==> #[trigger] used_after[k],
        forall|k: int|
            0 <= k < tasks.len() ==> {
                &&& live(#[trigger] after[k]) == live(tasks[k])
                &&& after[k].code_page_spec() == tasks[k].code_page_spec()
                &&& after[k].data_page_spec() == tasks[k].data_page_spec()
            },
    ensures
        frames_owned(after, used_after),
{
    assert forall|i: int| 0 <= i < after.len() && live(#[trigger] after[i]) implies owns_frames(after[i], used_after) by {
        assert(live(tasks[i]));
        assert(owns_frames(tasks[i], used));
        assert(0 <= code_frame(tasks[i]) < 256);
        assert(0 <= data_frame(tasks[i]) < 256);
    }
    assert forall|i: int, j: int|
        0 <= i < after.len() && 0 <= j < after.len() && i != j && live(#[trigger] after[i]) && live(
            #[trigger] after[j],
        ) implies frames_apart(after[i], after[j]) by {
        assert(live(tasks[i]) && live(tasks[j]));
    }
}

/// A frame index of the pool lies within it.
pub proof fn lemma_frame_index_range(physical_address: u32)
    ensures
        frame_index(physical_address) matches Some(i) ==> 0 <= i < 256,
{
}

/// The scheduling decision keeps the tasks' memory apart: it changes states
/// only between ones that hold a slot, and no page or frame mark.
pub proof fn law_switch_keeps_frames_apart(
    before: Scheduler,
    after: Scheduler,
    mmu_before: Mmu,
    mmu_after: Mmu,
    now: u32,
    action: ContextSwitch,
)
    requires
        before.wf(),
        after.wf(),
        frames_owned(before.tasks_spec(), mmu_before.used_pages()),
        switched(before, after, mmu_before, mmu_after, now, action),
    ensures
        frames_owned(after.tasks_spec(), mmu_after.used_pages()),
{
    let tasks = before.tasks_spec();
    match find_first(tasks, before.start(), runnable_at(now)) {
        None => {
            lemma_frames_owned_kept(tasks, after.tasks_spec(), mmu_before.used_pages(), mmu_after.used_pages());
        },
        Some(i) => {
            crate::laws::lemma_scan_from(tasks, before.start(), 0, runnable_at(now));
            assert(0 <= i < MAX_TASKS);
            let seen = tasks.update(i, checked(tasks[i], now));
            let id = tasks[i].id_spec();
            let t = seen[id as int];
            lemma_with_state(tasks[i], checked_state(tasks[i].state_spec(), now));
            lemma_with_state(t, TaskState::Running);
            assert forall|k: int| 0 <= k < tasks.len() implies {
                &&& live(#[trigger] seen[k]) == live(tasks[k])
                &&& seen[k].code_page_spec() == tasks[k].code_page_spec()
                &&& seen[k].data_page_spec() == tasks[k].data_page_spec()
            } by {}
            assert forall|k: int| 0 <= k < tasks.len() implies {
                &&& live(#[trigger] after.tasks_spec()[k]) == live(tasks[k])
                &&& after.tasks_spec()[k].code_page_spec() == tasks[k].code_page_spec()
                &&& after.tasks_spec()[k].data_page_spec() == tasks[k].data_page_spec()
            } by {
                assert(live(seen[k]) == live(tasks[k]));
            }
            lemma_frames_owned_kept(tasks, after.tasks_spec(), mmu_before.used_pages(), mmu_after.used_pages());
        },
    }
}

/// Starting a task keeps the tasks' memory apart: the new task gets two
/// frames that no task held, and the others keep theirs.
pub proof fn law_create_task_keeps_frames_apart(
    before: Scheduler,
    after: Scheduler,
    mmu_before: Mmu,
    mmu_after: Mmu,
    r: Option<usize>,
)
    requires
        before.wf(),
        after.wf(),
        frames_owned(before.tasks_spec(), mmu_before.used_pages()),
        task_created(before, after, mmu_before, mmu_after, r),
    ensures
        frames_owned(after.tasks_spec(), mmu_after.used_pages()),
{
    let tasks = before.tasks_spec();
    let used = mmu_before.used_pages();
    mmu_after.lemma_wf();
    match find_first(tasks, before.start(), in_state(TaskState::Terminated)) {
        None => {
            lemma_frames_owned_kept(tasks, after.tasks_spec(), used, mmu_after.used_pages());
        },
        Some(j) => {
            let id = tasks[j].id_spec();
            match r {
                Some(created) => {
                    let (a, b) = choose|a: int, b: int|
                        #![trigger is_first_free(used, a), is_first_free(used.update(a, true), b)]
                    {
                        &&& created == tasks[id as int].id_spec()
                        &&& is_first_free(used, a)
                        &&& is_first_free(used.update(a, true), b)
                        &&& only_frames_changed(mmu_before, mmu_after, used.update(a, true).update(b, true))
                        &&& after.tasks_spec().len() == MAX_TASKS
                        &&& forall|i: int| 0 <= i < MAX_TASKS && i != id ==> #[trigger] after.tasks_spec()[i] == tasks[i]
                        &&& is_fresh(after.tasks_spec()[id as int], created, id, a, b)
                    };
                    let used_after = used.update(a, true).update(b, true);
                    crate::laws::law_frame_returned(used, a);
                    crate::laws::law_frame_returned(used.update(a, true), b);
                    crate::laws::law_fresh_frames_distinct(used, a, b);
                    let after_tasks = after.tasks_spec();
                    if 0 <= id < MAX_TASKS {
                        let n = after_tasks[id as int];
                        assert(code_frame(n) == a);
                        assert(data_frame(n) == b);
                        assert forall|i: int| 0 <= i < after_tasks.len() && live(#[trigger] after_tasks[i]) implies owns_frames(after_tasks[i], used_after) by {
                            if i != id {
                                assert(after_tasks[i] == tasks[i]);
                                assert(owns_frames(tasks[i], used));
                                lemma_frame_index_range(tasks[i].code_page_spec().physical_address());
                                lemma_frame_index_range(tasks[i].data_page_spec().physical_address());
                            }
                        }
                        assert forall|i: int, k: int|
                            0 <= i < after_tasks.len() && 0 <= k < after_tasks.len() && i != k && live(#[trigger] after_tasks[i]) && live(
                                #[trigger] after_tasks[k],
                            ) implies frames_apart(after_tasks[i], after_tasks[k]) by {
                            if i == id {
                                assert(after_tasks[k] == tasks[k]);
                                assert(owns_frames(tasks[k], used));
                            } else if k == id {
                                assert(after_tasks[i] == tasks[i]);
                                assert(owns_frames(tasks[i], used));
                            } else {
                                assert(after_tasks[i] == tasks[i]);
                                assert(after_tasks[k] == tasks[k]);
                            }
                        }
                    } else {
                        assert forall|i: int| 0 <= i < MAX_TASKS implies after_tasks[i] == tasks[i] by {}
                        assert forall|i: int| 0 <= i < 256 && used[i] implies #[trigger] used_after[i] by {}
                        lemma_frames_owned_kept(tasks, after_tasks, used, used_after);
                    }
                },
                None => {
                    if exists|a: int| {
                        &&& is_first_free(used, a)
                        &&& forall|i: int| 0 <= i < 256 ==> #[trigger] used.update(a, true)[i]
                        &&& only_frames_changed(mmu_before, mmu_after, used.update(a, true))
                    } {
                        let a = choose|a: int| {
                            &&& is_first_free(used, a)
                            &&& forall|i: int| 0 <= i < 256 ==> #[trigger] used.update(a, true)[i]
                            &&& only_frames_changed(mmu_before, mmu_after, used.update(a, true))
                        };
                        assert forall|i: int| 0 <= i < 256 && used[i] implies #[trigger] used.update(a, true)[i] by {}
                        lemma_frames_owned_kept(tasks, after.tasks_spec(), used, mmu_after.used_pages());
                    } else {
                        lemma_frames_owned_kept(tasks, after.tasks_spec(), used, mmu_after.used_pages());
                    }
                },
            }
        },
    }
}

/// Slots that hold no task keep nothing apart: a scheduler with no task
/// starts with its tasks' memory apart, whatever the pool holds.
pub proof fn law_no_tasks_frames_apart(tasks: Seq<Task>, used: Seq<bool>)
    requires
        used.len() == 256,
        forall|i: int| 0 <= i < tasks.len() ==> !live(#[trigger] tasks[i]),
    ensures
        frames_owned(tasks, used),
{
}

/// Whether every slot holds the task of its own number (`init` numbers them
/// so, and task creation keeps it).
pub open spec fn numbered(tasks: Seq<Task>) -> bool {
    forall|k: int| 0 <= k < tasks.len() ==> #[trigger] tasks[k].id_spec() == k
}

/// Each round of the kernel loop hands the processor to a task whenever one
/// may run: the scheduling decision is `Stay` exactly when no task may run at
/// that time; otherwise it starts or resumes the task it picked.
pub proof fn law_round_runs_a_runnable_task(
    before: Scheduler,
    after: Scheduler,
    mmu_before: Mmu,
    mmu_after: Mmu,
    now: u32,
    action: ContextSwitch,
)
    requires
        before.wf(),
        numbered(before.tasks_spec()),
        switched(before, after, mmu_before, mmu_after, now, action),
    ensures
        (action == ContextSwitch::Stay) <==> (forall|j: int|
            0 <= j < MAX_TASKS ==> !executable_at(#[trigger] before.tasks_spec()[j].state_spec(), now)),
{
    let tasks = before.tasks_spec();
    crate::laws::law_round_robin(tasks, before.start(), now);
    match find_first(tasks, before.start(), runnable_at(now)) {
        None => {},
        Some(i) => {
            assert(tasks[i].id_spec() == i);
            lemma_with_state(tasks[i], checked_state(tasks[i].state_spec(), now));
            let t = tasks.update(i, checked(tasks[i], now))[i];
            assert(t.state_spec() == TaskState::Ready || t.state_spec() == TaskState::Stored);
            assert(action != ContextSwitch::Stay);
            assert(executable_at(tasks[i].state_spec(), now));
        },
    }
}

/// The scheduling decision keeps every slot holding the task of its number.
pub proof fn law_switch_keeps_numbered(
    before: Scheduler,
    after: Scheduler,
    mmu_before: Mmu,
    mmu_after: Mmu,
    now: u32,
    action: ContextSwitch,
)
    requires
        before.wf(),
        after.wf(),
        numbered(before.tasks_spec()),
        switched(before, after, mmu_before, mmu_after, now, action),
    ensures
        numbered(after.tasks_spec()),
{
    let tasks = before.tasks_spec();
    if let Some(i) = find_first(tasks, before.start(), runnable_at(now)) {
        crate::laws::lemma_scan_from(tasks, before.start(), 0, runnable_at(now));
        let seen = tasks.update(i, checked(tasks[i], now));
        lemma_with_state(tasks[i], checked_state(tasks[i].state_spec(), now));
        lemma_with_state(seen[tasks[i].id_spec() as int], TaskState::Running);
        assert forall|k: int| 0 <= k < after.tasks_spec().len() implies #[trigger] after.tasks_spec()[k].id_spec() == k by {
            assert(seen[k].id_spec() == k);
        }
    }
}

/// Starting a task keeps every slot holding the task of its number.
pub proof fn law_create_task_keeps_numbered(
    before: Scheduler,
    after: Scheduler,
    mmu_before: Mmu,
    mmu_after: Mmu,
    r: Option<usize>,
)
    requires
        before.wf(),
        after.wf(),
        numbered(before.tasks_spec()),
        task_created(before, after, mmu_before, mmu_after, r),
    ensures
        numbered(after.tasks_spec()),
{
    let tasks = before.tasks_spec();
    if let Some(j) = find_first(tasks, before.start(), in_state(TaskState::Terminated)) {
        if let Some(created) = r {
            let id = tasks[j].id_spec();
            let used = mmu_before.used_pages();
            let (a, b) = choose|a: int, b: int|
                #![trigger is_first_free(used, a), is_first_free(used.update(a, true), b)]
            {
                &&& created == tasks[id as int].id_spec()
                &&& is_first_free(used, a)
                &&& is_first_free(used.update(a, true), b)
                &&& only_frames_changed(mmu_before, mmu_after, used.update(a, true).update(b, true))
                &&& after.tasks_spec().len() == MAX_TASKS
                &&& forall|i: int| 0 <= i < MAX_TASKS && i != id ==> #[trigger] after.tasks_spec()[i] == tasks[i]
                &&& is_fresh(after.tasks_spec()[id as int], created, id, a, b)
            };
            assert forall|k: int| 0 <= k < after.tasks_spec().len() implies #[trigger] after.tasks_spec()[k].id_spec() == k by {
                if k != id {
                    assert(after.tasks_spec()[k] == tasks[k]);
                }
            }
        }
    }
}


/// The slots whose task is terminated: those a creation can take.
pub open spec fn terminated_slots(tasks: Seq<Task>) -> Set<int> {
    Set::new(|i: int| 0 <= i < MAX_TASKS && tasks[i].state_spec() == TaskState::Terminated)
}

/// There are at most `MAX_TASKS` terminated slots.
pub proof fn lemma_terminated_slots_bounded(tasks: Seq<Task>)
    ensures
        terminated_slots(tasks).finite(),
        terminated_slots(tasks).len() <= MAX_TASKS,
{
    vstd::set_lib::lemma_int_range(0, MAX_TASKS as int);
    vstd::set_lib::lemma_len_subset(terminated_slots(tasks), vstd::set_lib::set_int_range(0, MAX_TASKS as int));
}

/// A creation that succeeds starts its task in a slot that was terminated,
/// below `MAX_TASKS`, and is not terminated afterwards; no other slot changes.
/// One that fails changes no slot. With no terminated slot, creation fails.
pub proof fn law_create_task_takes_a_terminated_slot(
    before: Scheduler,
    after: Scheduler,
    mmu_before: Mmu,
    mmu_after: Mmu,
    r: Option<usize>,
)
    requires
        before.wf(),
        numbered(before.tasks_spec()),
        task_created(before, after, mmu_before, mmu_after, r),
    ensures
        match r {
            Some(c) => {
                &&& c < MAX_TASKS
                &&& terminated_slots(before.tasks_spec()).contains(c as int)
                &&& terminated_slots(after.tasks_spec()) == terminated_slots(before.tasks_spec()).remove(c as int)
            },
            None => terminated_slots(after.tasks_spec()) == terminated_slots(before.tasks_spec()),
        },
        terminated_slots(before.tasks_spec()) == Set::<int>::empty() ==> r is None,
{
    let tasks = before.tasks_spec();
    let p = in_state(TaskState::Terminated);
    crate::laws::lemma_scan_from(tasks, before.start(), 0, p);
    if let Some(j) = find_first(tasks, before.start(), p) {
        assert(0 <= j < MAX_TASKS);
        assert(terminated_slots(tasks).contains(j));
        if let Some(created) = r {
            let id = tasks[j].id_spec();
            assert(id == j);
            let used = mmu_before.used_pages();
            let (a, b) = choose|a: int, b: int|
                #![trigger is_first_free(used, a), is_first_free(used.update(a, true), b)]
            {
                &&& created == tasks[id as int].id_spec()
                &&& is_first_free(used, a)
                &&& is_first_free(used.update(a, true), b)
                &&& only_frames_changed(mmu_before, mmu_after, used.update(a, true).update(b, true))
                &&& after.tasks_spec().len() == MAX_TASKS
                &&& forall|i: int| 0 <= i < MAX_TASKS && i != id ==> #[trigger] after.tasks_spec()[i] == tasks[i]
                &&& is_fresh(after.tasks_spec()[id as int], created, id, a, b)
            };
            assert(terminated_slots(after.tasks_spec()) =~= terminated_slots(tasks).remove(created as int)) by {
                assert forall|i: int| 0 <= i < MAX_TASKS && i != j implies #[trigger] after.tasks_spec()[i] == tasks[i] by {}
            }
        }
    }
}

/// Two creations in a row that both succeed give different slots, both below
/// `MAX_TASKS`.
pub proof fn law_successive_creations_distinct(
    s0: Scheduler,
    s1: Scheduler,
    s2: Scheduler,
    m0: Mmu,
    m1: Mmu,
    m2: Mmu,
    c1: usize,
    c2: usize,
)
    requires
        s0.wf(),
        s1.wf(),
        numbered(s0.tasks_spec()),
        task_created(s0, s1, m0, m1, Some(c1)),
        task_created(s1, s2, m1, m2, Some(c2)),
    ensures
        c1 != c2,
        c1 < MAX_TASKS,
        c2 < MAX_TASKS,
{
    law_create_task_keeps_numbered(s0, s1, m0, m1, Some(c1));
    law_create_task_takes_a_terminated_slot(s0, s1, m0, m1, Some(c1));
    law_create_task_takes_a_terminated_slot(s1, s2, m1, m2, Some(c2));
}

/// `states` is a run of creations: each scheduler (with its MMU) is the one
/// before after the creation that returned the result of the same index.
pub open spec fn creations(states: Seq<Scheduler>, mmus: Seq<Mmu>, results: Seq<Option<usize>>) -> bool {
    &&& states.len() == results.len() + 1
    &&& mmus.len() == states.len()
    &&& forall|i: int| 0 <= i < states.len() ==> #[trigger] states[i].wf()
    &&& forall|i: int| #![trigger results[i]]
        0 <= i < results.len() ==> task_created(states[i], states[i + 1], mmus[i], mmus[i + 1], results[i])
}

proof fn lemma_creations_use_up_slots(states: Seq<Scheduler>, mmus: Seq<Mmu>, results: Seq<Option<usize>>, k: int)
    requires
        creations(states, mmus, results),
        numbered(states[0].tasks_spec()),
        0 <= k <= results.len(),
    ensures
        numbered(states[k].tasks_spec()),
        k <= MAX_TASKS && (forall|i: int| 0 <= i < k ==> #[trigger] results[i] is Some)
            ==> terminated_slots(states[k].tasks_spec()).len() + k <= MAX_TASKS,
        k >= MAX_TASKS && (forall|i: int| 0 <= i < MAX_TASKS ==> #[trigger] results[i] is Some)
            ==> terminated_slots(states[k].tasks_spec()) == Set::<int>::empty(),
    decreases k,
{
    lemma_terminated_slots_bounded(states[k].tasks_spec());
    if k > 0 {
        let i = k - 1;
        lemma_creations_use_up_slots(states, mmus, results, i);
        assert(states[i].wf() && states[k].wf());
        let _ = results[i];
        law_create_task_keeps_numbered(states[i], states[k], mmus[i], mmus[k], results[i]);
        law_create_task_takes_a_terminated_slot(states[i], states[k], mmus[i], mmus[k], results[i]);
        lemma_terminated_slots_bounded(states[i].tasks_spec());
        if k >= MAX_TASKS && (forall|j: int| 0 <= j < MAX_TASKS ==> #[trigger] results[j] is Some) {
            if i < MAX_TASKS {
                assert(forall|j: int| 0 <= j < i ==> #[trigger] results[j] is Some);
                assert(results[i] is Some);
                assert(terminated_slots(states[k].tasks_spec()).len() == 0);
                assert(terminated_slots(states[k].tasks_spec()) =~= Set::<int>::empty());
            }
        }
    }
}

/// Once `MAX_TASKS` creations in a row have succeeded (with no task ending in
/// between), every further creation fails.
pub proof fn law_creations_run_out(states: Seq<Scheduler>, mmus: Seq<Mmu>, results: Seq<Option<usize>>)
    requires
        creations(states, mmus, results),
        numbered(states[0].tasks_spec()),
        forall|i: int| 0 <= i < MAX_TASKS && i < results.len() ==> #[trigger] results[i] is Some,
    ensures
        forall|i: int| MAX_TASKS <= i < results.len() ==> #[trigger] results[i] is None,
{
    assert forall|i: int| MAX_TASKS <= i < results.len() implies #[trigger] results[i] is None by {
        assert(forall|j: int| 0 <= j < MAX_TASKS ==> #[trigger] results[j] is Some) by {
            assert forall|j: int| 0 <= j < MAX_TASKS implies #[trigger] results[j] is Some by {
                assert(j < results.len());
            }
        }
        lemma_creations_use_up_slots(states, mmus, results, i);
        assert(states[i].wf());
        let _ = results[i];
        law_create_task_takes_a_terminated_slot(states[i], states[i + 1], mmus[i], mmus[i + 1], results[i]);
    }
}


/// A scheduling decision that starts or resumes a task maps both of its
/// pages: the second-level entry of its data page (where its stack and heap
/// lie) holds the data page's descriptor, that of its code page the code
/// page's descriptor, and every other entry is as it was. The task is then
/// the running one, it was one that may run, and it is started at its saved
/// context if it never ran, else resumed there.
pub proof fn law_switch_maps_both_pages(
    before: Scheduler,
    after: Scheduler,
    mmu_before: Mmu,
    mmu_after: Mmu,
    now: u32,
    action: ContextSwitch,
)
    requires
        before.wf(),
        numbered(before.tasks_spec()),
        switched(before, after, mmu_before, mmu_after, now, action),
        action != ContextSwitch::Stay,
    ensures
        after.current_index_spec() matches Some(c) && c < MAX_TASKS && {
            let t = after.tasks_spec()[c as int];
            let code = (t.code_page_spec().virtual_address() >> 12) as int;
            let data = (t.data_page_spec().virtual_address() >> 12) as int;
            let o = before.tasks_spec()[c as int];
            &&& t.state_spec() == TaskState::Running
            &&& t.context_spec() == o.context_spec()
            &&& action == if o.state_spec() == TaskState::Ready {
                ContextSwitch::Switch { sp: o.context_spec().sp, pc: o.context_spec().pc }
            } else {
                ContextSwitch::Restore { sp: o.context_spec().sp, pc: o.context_spec().pc }
            }
            &&& executable_at(o.state_spec(), now)
            &&& code < 256 && data < 256 ==> {
                &&& mmu_after.level2()[data] == t.data_page_spec().descriptor_spec()
                &&& code != data ==> mmu_after.level2()[code] == t.code_page_spec().descriptor_spec()
                &&& forall|k: int| 0 <= k < 256 && k != code && k != data
                    ==> #[trigger] mmu_after.level2()[k] == mmu_before.level2()[k]
            }
        },
{
    let tasks = before.tasks_spec();
    crate::laws::law_round_robin(tasks, before.start(), now);
    mmu_before.lemma_wf();
    mmu_after.lemma_wf();
    if let Some(i) = find_first(tasks, before.start(), runnable_at(now)) {
        assert(tasks[i].id_spec() == i);
        let seen = tasks.update(i, checked(tasks[i], now));
        let t = seen[i];
        lemma_with_state(tasks[i], checked_state(tasks[i].state_spec(), now));
        lemma_with_state(t, TaskState::Running);
        assert(t.state_spec() == TaskState::Ready || t.state_spec() == TaskState::Stored);
        let r = after.tasks_spec()[i];
        assert(r == t.with_state(TaskState::Running));
        assert(r.code_page_spec() == t.code_page_spec());
        assert(r.data_page_spec() == t.data_page_spec());
        let code = (t.code_page_spec().virtual_address() >> 12) as int;
        let data = (t.data_page_spec().virtual_address() >> 12) as int;
        assert(mapped_both(mmu_before, mmu_after, t.code_page_spec(), t.data_page_spec()));
        assert(mmu_after.level2() == mmu_before.level2().update(code, t.code_page_spec().descriptor_spec())
            .update(data, t.data_page_spec().descriptor_spec()));
        assert(after.current_index_spec() == Some(i as usize));
        assert(r.state_spec() == TaskState::Running);
    }
}

} // verus!
