use fenix::boards::bblack::internals::interrupts::{Interrupt, InterruptBank, Register as Controller};
use fenix::boards::bblack::internals::timer::{Register as TimerRegister, Timer};
use fenix::internals::interrupts::InterruptRegister;
use fenix::internals::sysclock::{self, Sysclock, TICK_HANDLER, TICK_RELOAD};
use fenix::internals::timer::{DmTimer, Timer as RunningTimer, Timers};
use fenix::sys::{read_addr, write_addr, RegisterFile};

const INTC: u32 = 0x4820_0000;

#[test]
fn interrupt_lines() {
    assert!(Interrupt::new(68) == Interrupt::TINT2);
    assert!(Interrupt::new(95) == Interrupt::TINT7);
    assert_eq!(Interrupt::TINT4.number(), 92);
    assert!(InterruptBank::new(5) == Some(InterruptBank::Int0));
    assert!(InterruptBank::new(70) == Some(InterruptBank::Int2));
    assert!(InterruptBank::new(127) == Some(InterruptBank::Int3));
    assert!(InterruptBank::new(128).is_none());
    assert_eq!(InterruptBank::Int1.get_mir(), 0xA4);
}

#[test]
fn controller_enables_a_line() {
    let mut regs = RegisterFile::new();
    let controller = Controller::new();
    controller.enable(&mut regs, Interrupt::TINT2, 3);
    assert_eq!(read_addr(&regs, INTC + 0x100 + 4 * 68), 3 << 2);
    assert_eq!(read_addr(&regs, INTC + 0xC4 + 4), 1 << 4);
}

#[test]
fn controller_handlers() {
    let mut controller = Controller::new();
    assert_eq!(controller.execute(Interrupt::TINT5), 0);
    controller.register_handler(Interrupt::TINT5, 42);
    assert_eq!(controller.execute(Interrupt::TINT5), 42);
    assert_eq!(controller.execute(Interrupt::TINT6), 0);
}

#[test]
fn controller_current_and_clear() {
    let mut regs = RegisterFile::new();
    let controller = Controller::new();
    write_addr(&mut regs, INTC + 0x40, 0x80 | 93);
    assert!(controller.current(&regs) == Interrupt::TINT5);
    controller.clear(&mut regs);
    assert_eq!(read_addr(&regs, INTC + 0x48), 1);
}

#[test]
fn board_timer_init() {
    let mut regs = RegisterFile::new();
    let controller = Controller::new();
    Timer::Timer3.init(&mut regs, &controller, 0xFFFF_FF00);
    let base = 0x4804_2000;
    assert_eq!(read_addr(&regs, base + 0x40), 0xFFFF_FF00);
    assert_eq!(read_addr(&regs, base + 0x3C), 0xFFFF_FF00);
    assert_eq!(read_addr(&regs, base + 0x2C), 0x2);
    assert_eq!(read_addr(&regs, base + 0x38), 0x3);
    // the timer 3 clock is switched on
    assert_eq!(read_addr(&regs, 0x44E0_0000 + 0x84), 0x2);
    // line 69 enabled at priority 0
    assert_eq!(read_addr(&regs, INTC + 0x100 + 4 * 69), 0);
    assert_eq!(read_addr(&regs, INTC + 0xC4 + 4), 1 << 5);
}

#[test]
fn board_timer_handlers() {
    let mut regs = RegisterFile::new();
    let controller = Controller::new();
    let mut timers = TimerRegister::new();
    timers.register(&mut regs, &controller, Timer::Timer4, 0xFFFF_0000, 7);
    write_addr(&mut regs, INTC + 0x40, 92);
    assert_eq!(timers.current_handler(&regs, &controller), 7);
    let t = timers.interrupt_handler(&mut regs, &controller);
    assert!(t == Timer::Timer4);
    assert_eq!(read_addr(&regs, 0x4804_4000 + 0x28), 0x2);
    assert!(Timer::from_interrupt(Interrupt::TINT7) == Timer::Timer7);
    assert_eq!(Timer::Timer7.index(), 5);
    assert_eq!(Timer::Timer6.address(), 0x4804_8000);
}

#[test]
fn timer_registry() {
    let mut regs = RegisterFile::new();
    let controller = Controller::new();
    let mut timers = Timers::new();
    assert!(timers.get_timer(Interrupt::TINT3).is_none());
    timers.register_timer(&mut regs, &controller, DmTimer::Timer3, 1000, 5);
    let t = timers.get_timer(Interrupt::TINT3);
    assert!(t == Some(RunningTimer { timer: DmTimer::Timer3, reload: 1000, handler: 5 }));
    assert!(timers.get_timer(Interrupt::TINT2).is_none());
    assert_eq!(read_addr(&regs, 0x4804_2000 + 0x40), 1000);
}

#[test]
fn timer_overflow_halves() {
    let mut regs = RegisterFile::new();
    let t = RunningTimer { timer: DmTimer::Timer2, reload: 1, handler: 9 };
    assert_eq!(t.begin_irq(&mut regs), 9);
    assert_eq!(read_addr(&regs, 0x4804_0000 + 0x30), 0x2);
    assert_eq!(read_addr(&regs, 0x4804_0000 + 0x28), 0x2);
    t.finish_irq(&mut regs);
    assert_eq!(read_addr(&regs, 0x4804_0000 + 0x2C), 0x2);
    assert!(DmTimer::try_new(Interrupt::TINT6) == Some(DmTimer::Timer6));
    assert_eq!(DmTimer::Timer5.number(), 5);
}

#[test]
fn tick_counter() {
    let mut regs = RegisterFile::new();
    let controller = Controller::new();
    let mut timers = Timers::new();
    sysclock::init(&mut regs, &controller, &mut timers);
    assert!(timers.get_timer(Interrupt::TINT2) == Some(RunningTimer { timer: DmTimer::Timer2, reload: TICK_RELOAD, handler: TICK_HANDLER }));
    let mut clock = Sysclock::new();
    assert_eq!(sysclock::ticks(&clock), 0);
    clock.irq_handler();
    clock.irq_handler();
    assert_eq!(clock.ticks(), 2);
}

#[test]
fn wait_handles_wrap_around() {
    assert!(!sysclock::wait(100, 150, 100));
    assert!(sysclock::wait(100, 200, 100));
    assert!(sysclock::wait(0xFFFF_FFF0, 0x10, 0x20));
    assert!(!sysclock::wait(0xFFFF_FFF0, 0x0F, 0x20));
    assert!(sysclock::wait(5, 5, 0));
}
