use fenix::tasks::scheduler::{Dispatch, TaskCreationError, TaskManager};
use fenix::tasks::task::{Task, TaskState, TASK_STACK_SIZE};

#[test]
fn task_states() {
    assert!(TaskState::Ready.executable(0));
    assert!(TaskState::Stored.executable(0));
    assert!(!TaskState::Running.executable(100));
    assert!(!TaskState::Blocked(10).executable(9));
    assert!(TaskState::Blocked(10).executable(10));
}

#[test]
fn task_stack() {
    let mut t = Task::new(2, 0x100, 5);
    assert!(t == Task { id: 2, sp: 0, pc: 0x100, priority: 5, stack: [0; TASK_STACK_SIZE], state: TaskState::Ready });
    assert!(t.stack.iter().all(|b| *b == 0));
    t.setup_stack(0x8000);
    assert_eq!(t.sp, 0x8400);
}

#[test]
fn priority_scheduling() {
    let mut m = TaskManager::new();
    assert!(m.cycle(0) == Dispatch::Stay);
    assert!(m.create_task(0x100, 3, 0x2000) == Err(TaskCreationError));
    assert!(m.create_task(0x200, 1, 0x3000) == Err(TaskCreationError));
    assert!(m.task(0).is_some());
    assert_eq!(m.task(1).unwrap().sp, 0x3400);
    assert!(m.task(2).is_none());
    // the lower number runs first
    assert!(m.cycle(0) == Dispatch::Switch { sp: 0x3400, pc: 0x200 });
    assert_eq!(m.current().unwrap().id, 1);
    // preempted, it is still the most urgent
    assert!(m.save_context(0x33F0, 0x210, 1) == Dispatch::Restore { sp: 0x33F0, pc: 0x210 });
    // blocked, the other one runs
    assert!(m.yield_context(0x33E0, 0x220, 10, 2) == Dispatch::Switch { sp: 0x2400, pc: 0x100 });
    assert_eq!(m.current().unwrap().id, 0);
    // once its time has come, the blocked task wins again
    assert!(m.save_context(0x23F0, 0x110, 10) == Dispatch::Restore { sp: 0x33E0, pc: 0x220 });
}
