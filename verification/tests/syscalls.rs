use fenix::kernel::kernel::SyscallReturn;
use fenix::shared::gpio::GpioBank;
use fenix::shared::i2c::{I2cError, PRINT_ADDRESS};
use fenix::shared::kernel::{Syscall, SyscallReturnValue, TrapFrame};

fn frame(r0: u32, r1: u32, r2: u32, r12: u32) -> TrapFrame {
    TrapFrame { r0, r1, r2, r3: 0, r12 }
}

#[test]
fn exit_round_trip() {
    let f = Syscall::Exit.registers();
    assert!(f == frame(0, 0, 0, 0));
    assert!(matches!(f.decode(), Ok(Syscall::Exit)));
}

#[test]
fn yield_round_trip() {
    let s = Syscall::Yield { sp: 0x1000, pc: 0x2000, until: Some(500) };
    let f = s.registers();
    assert!(f == frame(0x1000, 0x2000, 500, 1));
    assert!(matches!(f.decode(), Ok(Syscall::Yield { sp: 0x1000, pc: 0x2000, until: Some(500) })));
}

#[test]
fn yield_without_timeout_round_trip() {
    let f = Syscall::Yield { sp: 4, pc: 8, until: None }.registers();
    assert!(f == frame(4, 8, 0, 1));
    assert!(matches!(f.decode(), Ok(Syscall::Yield { sp: 4, pc: 8, until: None })));
}

#[test]
fn yield_with_zero_timeout_means_none() {
    let f = Syscall::Yield { sp: 4, pc: 8, until: Some(0) }.registers();
    assert!(matches!(f.decode(), Ok(Syscall::Yield { until: None, .. })));
}

#[test]
fn gpio_requests_round_trip() {
    let f = Syscall::GpioRead { pin: (21, GpioBank::Gpio1) }.registers();
    assert!(f == frame(0x4804_C000, 21, 0, 3));
    assert!(matches!(f.decode(), Ok(Syscall::GpioRead { pin: (21, GpioBank::Gpio1) })));
    let f = Syscall::GpioWrite { pin: (3, GpioBank::Gpio3), value: true }.registers();
    assert!(f == frame(0x481A_E000, 3, 1, 4));
    assert!(matches!(f.decode(), Ok(Syscall::GpioWrite { pin: (3, GpioBank::Gpio3), value: true })));
}

#[test]
fn other_requests_round_trip() {
    let f = Syscall::I2cWrite { address: PRINT_ADDRESS, data: 0x8000, len: 12 }.registers();
    assert!(f == frame(0x10, 0x8000, 12, 5));
    assert!(matches!(f.decode(), Ok(Syscall::I2cWrite { address: 0x10, data: 0x8000, len: 12 })));
    assert!(matches!(Syscall::Millis.registers().decode(), Ok(Syscall::Millis)));
    assert!(matches!(Syscall::Panic.registers().decode(), Ok(Syscall::Panic)));
    let f = Syscall::Alloc { size: 64, align: 8 }.registers();
    assert!(matches!(f.decode(), Ok(Syscall::Alloc { size: 64, align: 8 })));
    let f = Syscall::Dealloc { ptr: 0x100, size: 64, align: 8 }.registers();
    assert!(matches!(f.decode(), Ok(Syscall::Dealloc { ptr: 0x100, size: 64, align: 8 })));
}

#[test]
fn unknown_request_is_an_error() {
    assert!(frame(0, 0, 0, 9).decode().is_err());
    assert!(frame(1, 2, 3, 0xFFFF).decode().is_err());
}

#[test]
fn replies_round_trip() {
    let v = SyscallReturnValue::Millis(1234);
    assert!(Syscall::Millis.result(v.word()) == Some(v));
    let v = SyscallReturnValue::GpioRead(true);
    assert_eq!(v.word(), 1);
    assert!(Syscall::GpioRead { pin: (0, GpioBank::Gpio0) }.result(v.word()) == Some(v));
    let v = SyscallReturnValue::I2cWrite(I2cError::Nack);
    assert_eq!(v.word(), 1);
    assert!(Syscall::I2cWrite { address: 1, data: 2, len: 3 }.result(v.word()) == Some(v));
    let v = SyscallReturnValue::Alloc(0x3000);
    assert!(Syscall::Alloc { size: 4, align: 4 }.result(v.word()) == Some(v));
    assert!(Syscall::Exit.result(5).is_none());
    assert_eq!(SyscallReturnValue::Nothing.word(), 0);
}

#[test]
fn i2c_error_codes() {
    assert_eq!(I2cError::Success.code(), 0);
    assert_eq!(I2cError::Nack.code(), 1);
    assert_eq!(I2cError::ArbitrationLoss.code(), 2);
    assert_eq!(I2cError::from(0u32), I2cError::Success);
    assert_eq!(I2cError::from(1u32), I2cError::Nack);
    assert_eq!(I2cError::from(2u32), I2cError::ArbitrationLoss);
    assert_eq!(I2cError::from(77u32), I2cError::Success);
}

#[test]
fn syscall_returns() {
    assert!(SyscallReturn::exit() == SyscallReturn { exit: true, value: SyscallReturnValue::Nothing });
    assert!(SyscallReturn::none() == SyscallReturn { exit: false, value: SyscallReturnValue::Nothing });
    let r = SyscallReturn::value(SyscallReturnValue::Millis(3));
    assert!(!r.exit);
    assert!(r.value == SyscallReturnValue::Millis(3));
}

#[test]
fn gpio_bank_addresses() {
    assert_eq!(GpioBank::Gpio0.address(), 0x44E0_7000);
    assert_eq!(GpioBank::Gpio2.address(), 0x481A_C000);
    assert!(GpioBank::from_address(0x4804_C000) == GpioBank::Gpio1);
    assert!(GpioBank::from_address(0x481A_E000) == GpioBank::Gpio3);
}

#[test]
fn serviceable_requests() {
    assert!(Syscall::Millis.registers().is_serviceable());
    assert!(Syscall::GpioRead { pin: (31, GpioBank::Gpio2) }.registers().is_serviceable());
    assert!(!Syscall::GpioRead { pin: (32, GpioBank::Gpio2) }.registers().is_serviceable());
    assert!(!frame(0x1234, 3, 0, 3).is_serviceable());
    assert!(Syscall::Alloc { size: 16, align: 8 }.registers().is_serviceable());
    assert!(!Syscall::Alloc { size: 16, align: 6 }.registers().is_serviceable());
    assert!(!Syscall::Alloc { size: 16, align: 0 }.registers().is_serviceable());
    assert!(!frame(0, 0, 0, 9).is_serviceable());
}
