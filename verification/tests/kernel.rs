use fenix::internals::mmu::frames::FrameMemory;
use fenix::internals::mmu::Mmu;
use fenix::kernel::internals::sysclock::Sysclock;
use fenix::kernel::internals::tasks::{ContextSwitch, Scheduler, Task, TaskState};
use fenix::kernel::kernel::{kernel_loop, Kernel, SyscallOutcome, SyscallReturn};
use fenix::shared::gpio::GpioBank;
use fenix::shared::interrupts::Cpu;
use fenix::shared::kernel::{Syscall, SyscallReturnValue};
use fenix::sys::{read_addr, write_addr, RegisterFile};

/// The code every test task gets: four bytes.
const CODE: [u8; 4] = [0xFE, 0xFF, 0xFF, 0xEA];

fn create(k: &mut Kernel, memory: &mut FrameMemory) -> Option<usize> {
    k.scheduler.create_task(&mut k.mmu, &mut k.cpu, memory, &CODE)
}

fn kernel() -> Kernel {
    let mut scheduler = Scheduler::new();
    scheduler.init();
    Kernel {
        scheduler,
        mmu: Mmu::new(0x8000_0000, 0x8000_4000),
        registers: RegisterFile::new(),
        cpu: Cpu::new(0x13),
        sysclock: Sysclock::new(),
    }
}

#[test]
fn empty_task_terminates_without_panicking() {
    let mut mmu = Mmu::new(0, 0x4000);
    let mut task = Task::empty();
    task.terminate(&mut mmu);
    assert!(task.state() == TaskState::Terminated);
    assert_eq!(task.id(), 0);
}

#[test]
fn no_task_means_stay() {
    let mut k = kernel();
    assert!(kernel_loop(&mut k) == ContextSwitch::Stay);
    assert!(k.scheduler.current_index().is_none());
}

#[test]
fn created_task_starts_then_resumes() {
    let mut k = kernel();
    let mut memory = FrameMemory::new();
    let id = create(&mut k, &mut memory);
    assert_eq!(id, Some(0));
    assert!(k.scheduler.task(0).state() == TaskState::Ready);
    let action = kernel_loop(&mut k);
    assert!(action == ContextSwitch::Switch { sp: 0x1FFC, pc: 0 });
    assert_eq!(k.scheduler.current_index(), Some(0));
    assert!(k.scheduler.task(0).state() == TaskState::Running);
    // the task yields with its context
    let frame = Syscall::Yield { sp: 0x1F00, pc: 0x40, until: None }.registers();
    let outcome = k.swi_handler(&frame);
    assert!(outcome == SyscallOutcome::Return(SyscallReturn::exit()));
    assert!(k.scheduler.task(0).state() == TaskState::Stored);
    assert!(kernel_loop(&mut k) == ContextSwitch::Restore { sp: 0x1F00, pc: 0x40 });
}

#[test]
fn round_robin_between_tasks() {
    let mut k = kernel();
    let mut memory = FrameMemory::new();
    assert_eq!(create(&mut k, &mut memory), Some(0));
    assert_eq!(create(&mut k, &mut memory), Some(1));
    assert!(kernel_loop(&mut k) == ContextSwitch::Switch { sp: 0x1FFC, pc: 0 });
    assert_eq!(k.scheduler.current_index(), Some(0));
    let frame = Syscall::Yield { sp: 0x1E00, pc: 0x80, until: None }.registers();
    k.swi_handler(&frame);
    assert!(kernel_loop(&mut k) == ContextSwitch::Switch { sp: 0x1FFC, pc: 0 });
    assert_eq!(k.scheduler.current_index(), Some(1));
}

#[test]
fn waiting_task_runs_once_time_is_up() {
    let mut k = kernel();
    let mut memory = FrameMemory::new();
    create(&mut k, &mut memory);
    kernel_loop(&mut k);
    let frame = Syscall::Yield { sp: 0x1E00, pc: 0x80, until: Some(3) }.registers();
    k.swi_handler(&frame);
    assert!(k.scheduler.task(0).state() == TaskState::Waiting { until: 3 });
    assert!(kernel_loop(&mut k) == ContextSwitch::Stay);
    for _ in 0..3 {
        k.sysclock.interrupt_handler();
    }
    assert!(kernel_loop(&mut k) == ContextSwitch::Restore { sp: 0x1E00, pc: 0x80 });
}

#[test]
fn exit_terminates_the_running_task() {
    let mut k = kernel();
    let mut memory = FrameMemory::new();
    create(&mut k, &mut memory);
    kernel_loop(&mut k);
    let outcome = k.swi_handler(&Syscall::Exit.registers());
    assert!(outcome == SyscallOutcome::Return(SyscallReturn::exit()));
    assert!(k.scheduler.task(0).state() == TaskState::Terminated);
    assert!(kernel_loop(&mut k) == ContextSwitch::Stay);
    // slots are reused going round from the one after the ended task
    assert_eq!(create(&mut k, &mut memory), Some(1));
    assert_eq!(create(&mut k, &mut memory), Some(2));
    assert_eq!(create(&mut k, &mut memory), Some(3));
    assert_eq!(create(&mut k, &mut memory), Some(0));
    assert_eq!(create(&mut k, &mut memory), None);
}

#[test]
fn millis_answers_the_clock() {
    let mut k = kernel();
    k.sysclock.interrupt_handler();
    k.sysclock.interrupt_handler();
    let outcome = k.swi_handler(&Syscall::Millis.registers());
    assert!(outcome == SyscallOutcome::Return(SyscallReturn::value(SyscallReturnValue::Millis(2))));
}

#[test]
fn gpio_requests_act_on_the_pins() {
    let mut k = kernel();
    let frame = Syscall::GpioWrite { pin: (21, GpioBank::Gpio1), value: true }.registers();
    k.swi_handler(&frame);
    assert_eq!(read_addr(&k.registers, 0x4804_C13C), 1 << 21);
    write_addr(&mut k.registers, 0x4804_C138, 1 << 4);
    let outcome = k.swi_handler(&Syscall::GpioRead { pin: (4, GpioBank::Gpio1) }.registers());
    assert!(outcome == SyscallOutcome::Return(SyscallReturn::value(SyscallReturnValue::GpioRead(true))));
    let outcome = k.swi_handler(&Syscall::GpioRead { pin: (5, GpioBank::Gpio1) }.registers());
    assert!(outcome == SyscallOutcome::Return(SyscallReturn::value(SyscallReturnValue::GpioRead(false))));
}

#[test]
fn i2c_write_is_handed_on() {
    let mut k = kernel();
    let outcome = k.swi_handler(&Syscall::I2cWrite { address: 0x10, data: 0x1234, len: 3 }.registers());
    assert!(outcome == SyscallOutcome::I2cWrite { address: 0x10, data: 0x1234, len: 3 });
}

#[test]
fn alloc_uses_the_task_heap() {
    let mut k = kernel();
    let mut memory = FrameMemory::new();
    let outcome = k.swi_handler(&Syscall::Alloc { size: 8, align: 8 }.registers());
    assert!(outcome == SyscallOutcome::Return(SyscallReturn::none()));
    create(&mut k, &mut memory);
    kernel_loop(&mut k);
    let outcome = k.swi_handler(&Syscall::Alloc { size: 8, align: 8 }.registers());
    assert!(outcome == SyscallOutcome::Return(SyscallReturn::value(SyscallReturnValue::Alloc(0x1000))));
    let outcome = k.swi_handler(&Syscall::Alloc { size: 4, align: 16 }.registers());
    assert!(outcome == SyscallOutcome::Return(SyscallReturn::value(SyscallReturnValue::Alloc(0x1010))));
    let outcome = k.swi_handler(&Syscall::Alloc { size: 0x1000, align: 4 }.registers());
    assert!(outcome == SyscallOutcome::Return(SyscallReturn::value(SyscallReturnValue::Alloc(0))));
    let outcome = k.swi_handler(&Syscall::Dealloc { ptr: 0x1000, size: 8, align: 8 }.registers());
    assert!(outcome == SyscallOutcome::Return(SyscallReturn::none()));
}

#[test]
fn tick_asks_to_yield_every_ten() {
    let mut clock = Sysclock::new();
    for i in 1..=20u32 {
        let y = clock.interrupt_handler();
        assert_eq!(y, i % 10 == 0);
    }
    assert_eq!(clock.millis(), 20);
}

#[test]
fn tasks_get_frames_of_their_own() {
    let mut k = kernel();
    let mut memory = FrameMemory::new();
    create(&mut k, &mut memory);
    create(&mut k, &mut memory);
    let frames = [
        k.scheduler.task(0).code_page().descriptor() & !0xFFF,
        k.scheduler.task(0).data_page().descriptor() & !0xFFF,
        k.scheduler.task(1).code_page().descriptor() & !0xFFF,
        k.scheduler.task(1).data_page().descriptor() & !0xFFF,
    ];
    assert_eq!(frames, [0x4030_0000, 0x4030_1000, 0x4030_2000, 0x4030_3000]);
    // the ended task's frames go back to the pool and the next task gets them
    kernel_loop(&mut k);
    k.swi_handler(&Syscall::Exit.registers());
    assert!(!k.mmu.page_used(0) && !k.mmu.page_used(1));
    assert!(k.mmu.page_used(2) && k.mmu.page_used(3));
}

#[test]
fn code_goes_to_the_code_page() {
    let mut k = kernel();
    let mut memory = FrameMemory::new();
    assert_eq!(create(&mut k, &mut memory), Some(0));
    let code = [1u8, 2, 3];
    assert_eq!(k.scheduler.create_task(&mut k.mmu, &mut k.cpu, &mut memory, &code), Some(1));
    // task 0 got frames 0 and 1, task 1 frames 2 and 3
    for (i, b) in CODE.iter().enumerate() {
        assert_eq!(memory.read(0x4030_0000 + i as u32), *b);
    }
    assert_eq!(memory.read(0x4030_2000), 1);
    assert_eq!(memory.read(0x4030_2002), 3);
    assert_eq!(memory.read(0x4030_2003), 0);
    assert_eq!(memory.read(0x4030_1000), 0);
}

#[test]
fn creations_take_distinct_slots_until_none_is_left() {
    let mut k = kernel();
    let mut memory = FrameMemory::new();
    let mut slots = Vec::new();
    for _ in 0..4 {
        let slot = create(&mut k, &mut memory).unwrap();
        assert!(slot < 4);
        assert!(!slots.contains(&slot));
        assert!(k.scheduler.task(slot).state() == TaskState::Ready);
        slots.push(slot);
    }
    assert_eq!(create(&mut k, &mut memory), None);
    assert_eq!(create(&mut k, &mut memory), None);
}
