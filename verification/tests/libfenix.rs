use std::cell::{Cell, RefCell};

use fenix::internals::mmu::Mmu;
use fenix::kernel::internals::sysclock::Sysclock;
use fenix::kernel::internals::tasks::Scheduler;
use fenix::kernel::kernel::{Kernel, SyscallOutcome};
use fenix::libfenix::{exit, gpio, i2c, sysclock};
use fenix::shared::gpio::GpioBank;
use fenix::shared::i2c::I2cError;
use fenix::shared::interrupts::Cpu;
use fenix::shared::kernel::TrapFrame;
use fenix::sys::{read_addr, write_addr, RegisterFile};

fn kernel() -> Kernel {
    let mut scheduler = Scheduler::new();
    scheduler.init();
    Kernel {
        scheduler,
        mmu: Mmu::new(0x8000_0000, 0x8000_4000),
        registers: RegisterFile::new(),
        cpu: Cpu::new(0),
        sysclock: Sysclock::new(),
    }
}

#[test]
fn requests_reach_the_kernel() {
    let k = RefCell::new(kernel());
    let sent: RefCell<Vec<(u8, Vec<u8>)>> = RefCell::new(Vec::new());
    k.borrow_mut().sysclock.interrupt_handler();
    let svc = |f: TrapFrame, bytes: &[u8]| -> u32 {
        match k.borrow_mut().swi_handler(&f) {
            SyscallOutcome::Return(r) => r.value.word(),
            SyscallOutcome::I2cWrite { address, len, .. } => {
                assert_eq!(len as usize, bytes.len());
                sent.borrow_mut().push((address, bytes.to_vec()));
                0
            }
        }
    };
    assert_eq!(sysclock::millis(&svc), 1);
    gpio::write(&svc, (22, GpioBank::Gpio1), true);
    assert_eq!(read_addr(&k.borrow().registers, 0x4804_C13C), 1 << 22);
    write_addr(&mut k.borrow_mut().registers, 0x4804_C138, 1 << 22);
    assert!(gpio::read(&svc, (22, GpioBank::Gpio1)));
    assert!(!gpio::read(&svc, (21, GpioBank::Gpio1)));
    assert_eq!(i2c::write_buf(&svc, 0x10, &[1, 2, 3, 4]), I2cError::Success);
    assert_eq!(i2c::println(&svc, "Hello from user mode!"), Ok(()));
    exit(&svc);
    let sent = sent.borrow();
    assert_eq!(sent[0], (0x10, vec![1, 2, 3, 4]));
    assert_eq!(sent[1], (0x10, b"Hello from user mode!\n".to_vec()));
}

#[test]
fn i2c_requests_carry_the_bytes() {
    let last = RefCell::new((TrapFrame { r0: 0, r1: 0, r2: 0, r3: 0, r12: 0 }, Vec::new()));
    let nack = |f: TrapFrame, bytes: &[u8]| -> u32 {
        *last.borrow_mut() = (f, bytes.to_vec());
        1
    };
    assert_eq!(i2c::write(&nack, 0x3C, 0xA5), I2cError::Nack);
    assert!(last.borrow().0 == TrapFrame { r0: 0x3C, r1: 0, r2: 1, r3: 0, r12: 5 });
    assert_eq!(last.borrow().1, vec![0xA5]);
    assert_eq!(i2c::write_char(&nack, 0x3C, 'A'), I2cError::Nack);
    assert_eq!(last.borrow().1, vec![0x41]);
    assert_eq!(i2c::write_char(&nack, 0x3C, 'é'), I2cError::Nack);
    assert_eq!(last.borrow().1, vec![0xE9]);
    assert_eq!(i2c::write_str(&nack, 0x3C, "Hello, I2C!"), I2cError::Nack);
    assert_eq!(last.borrow().1, b"Hello, I2C!".to_vec());
    assert_eq!(i2c::print(&nack, "Status: OK"), Err(I2cError::Nack));
    assert!(last.borrow().0 == TrapFrame { r0: 0x10, r1: 0, r2: 10, r3: 0, r12: 5 });
    let lost = |_f: TrapFrame, _b: &[u8]| -> u32 { 2 };
    assert_eq!(i2c::println(&lost, "x"), Err(I2cError::ArbitrationLoss));
    let ok = |_f: TrapFrame, _b: &[u8]| -> u32 { 0 };
    assert_eq!(i2c::print(&ok, "x"), Ok(()));
    assert_eq!(i2c::println(&ok, ""), Ok(()));
}

#[test]
fn requests_without_bytes() {
    let count = Cell::new(0usize);
    let svc = |_f: TrapFrame, bytes: &[u8]| -> u32 {
        assert!(bytes.is_empty());
        count.set(count.get() + 1);
        7
    };
    assert_eq!(sysclock::millis(&svc), 7);
    exit(&svc);
    assert_eq!(count.get(), 2);
}

#[test]
fn wait_deadline() {
    assert_eq!(sysclock::wait_until(100, 50), 150);
    assert_eq!(sysclock::wait_until(u32::MAX - 1, 5), u32::MAX);
}
