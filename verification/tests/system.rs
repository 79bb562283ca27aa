use fenix::boards::bblack::clock::{self as board_clock, FuncClock as BoardClock};
use fenix::boards::bblack::internals::interrupts::{Interrupt, Register as Controller};
use fenix::clock::{self, FunctionalClock};
use fenix::init;
use fenix::internals::clocks::{self, FuncClock as TimerClock};
use fenix::internals::clock::FuncClock;
use fenix::internals::timer::{DmTimer, Timer, Timers};
use fenix::kernel::internals::sysclock::{initialize, MILLIS_HANDLER, MILLIS_RELOAD};
use fenix::sys::{read_addr, RegisterFile};
use fenix::tasks::scheduler::TaskManager;

#[test]
fn system_init() {
    let mut regs = RegisterFile::new();
    let controller = Controller::new();
    let mut timers = Timers::new();
    let mut tasks = TaskManager::new();
    init(&mut regs, &controller, &mut timers, &mut tasks, 0x400, 0x9000);
    assert_eq!(read_addr(&regs, 0x4804_C134), 0xFE1F_FFFF);
    assert_eq!(read_addr(&regs, 0x4804_0000 + 0x40), 1000);
    assert!(timers.get_timer(Interrupt::TINT2).is_some());
    let idle = tasks.task(0).unwrap();
    assert_eq!(idle.priority, 255);
    assert_eq!(idle.pc, 0x400);
    assert_eq!(idle.sp, 0x9400);
}

#[test]
fn kernel_tick_setup() {
    let mut regs = RegisterFile::new();
    let controller = Controller::new();
    let mut timers = Timers::new();
    initialize(&mut regs, &controller, &mut timers);
    assert!(timers.get_timer(Interrupt::TINT2) == Some(Timer { timer: DmTimer::Timer2, reload: MILLIS_RELOAD, handler: MILLIS_HANDLER }));
    assert_eq!(read_addr(&regs, 0x4804_0000 + 0x3C), 0xFFFF_FFE0);
    assert_eq!(read_addr(&regs, 0x4804_0000 + 0x38), 0x3);
}

#[test]
fn clocks() {
    let mut regs = RegisterFile::new();
    clock::enable(&mut regs, FunctionalClock::Gpio1);
    assert_eq!(read_addr(&regs, 0x44E0_00AC), 0x2);
    clocks::enable(&mut regs, TimerClock::Timer2);
    assert_eq!(read_addr(&regs, 0x44E0_0080), 0x2);
    board_clock::enable(&mut regs, BoardClock::Gpio0);
    assert_eq!(read_addr(&regs, 0x44E0_0408), 0x2);
    BoardClock::Timer5.enable(&mut regs);
    assert_eq!(read_addr(&regs, 0x44E0_00EC), 0x2);
    FuncClock::I2C0.enable(&mut regs);
    assert_eq!(read_addr(&regs, 0x44E0_04B8), 0x2);
}
