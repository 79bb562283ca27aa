use vstd::prelude::*;
use crate::shared::gpio::{GpioBank, GpioPin, bank_address};
use crate::shared::i2c::{I2cError, error_code, error_from_code};

verus! {

/// A request of a task to the kernel.
#[derive(Clone, Copy)]
pub enum Syscall {
    /// End the task.
    Exit,
    /// Give up the processor; resume at `pc` with stack `sp`, not before the
    /// millisecond count reaches `until` when there is one.
    Yield { sp: u32, pc: u32, until: Option<u32> },
    /// Ask for the millisecond count.
    Millis,
    /// Read the level of a pin.
    GpioRead { pin: GpioPin },
    /// Drive a pin high or low.
    GpioWrite { pin: GpioPin, value: bool },
    /// Send the `len` bytes at `data` to the I2C device at `address`.
    I2cWrite { address: u8, data: u32, len: u32 },
    /// The task panicked: end it.
    Panic,
    /// Allocate `size` bytes aligned to `align` from the task's heap.
    Alloc { size: u32, align: u32 },
    /// Give back the block at `ptr` of `size` bytes aligned to `align`.
    Dealloc { ptr: u32, size: u32, align: u32 },
}

/// The registers a task hands to the kernel with a request: the arguments in
/// r0 to r3 and the request number in r12.
#[derive(Clone, Copy, PartialEq, Eq, Structural)]
pub struct TrapFrame {
    pub r0: u32,
    pub r1: u32,
    pub r2: u32,
    pub r3: u32,
    pub r12: u32,
}

/// What the kernel answers to a request.
#[derive(Clone, Copy, PartialEq, Eq, Structural)]
pub enum SyscallReturnValue {
    Millis(u32),
    GpioRead(bool),
    I2cWrite(I2cError),
    Alloc(u32),
    Nothing,
}

/// The registers that carry `syscall` to the kernel.
pub open spec fn registers_of(syscall: Syscall) -> TrapFrame {
    match syscall {
        Syscall::Exit => TrapFrame { r0: 0, r1: 0, r2: 0, r3: 0, r12: 0 },
        Syscall::Yield { sp, pc, until } => TrapFrame {
            r0: sp,
            r1: pc,
            r2: match until {
                Some(u) => u,
                None => 0,
            },
            r3: 0,
            r12: 1,
        },
        Syscall::Millis => TrapFrame { r0: 0, r1: 0, r2: 0, r3: 0, r12: 2 },
        Syscall::GpioRead { pin } => TrapFrame { r0: bank_address(pin.1), r1: pin.0, r2: 0, r3: 0, r12: 3 },
        Syscall::GpioWrite { pin, value } => TrapFrame {
            r0: bank_address(pin.1),
            r1: pin.0,
            r2: if value { 1 } else { 0 },
            r3: 0,
            r12: 4,
        },
        Syscall::I2cWrite { address, data, len } => TrapFrame { r0: address as u32, r1: data, r2: len, r3: 0, r12: 5 },
        Syscall::Panic => TrapFrame { r0: 0, r1: 0, r2: 0, r3: 0, r12: 6 },
        Syscall::Alloc { size, align } => TrapFrame { r0: size, r1: align, r2: 0, r3: 0, r12: 7 },
        Syscall::Dealloc { ptr, size, align } => TrapFrame { r0: ptr, r1: size, r2: align, r3: 0, r12: 8 },
    }
}

/// What a task makes of the word `r0` that the kernel returns to `syscall`.
pub open spec fn result_of(syscall: Syscall, r0: u32) -> Option<SyscallReturnValue> {
    match syscall {
        Syscall::Millis => Some(SyscallReturnValue::Millis(r0)),
        Syscall::GpioRead { .. } => Some(SyscallReturnValue::GpioRead(r0 != 0)),
        Syscall::I2cWrite { .. } => Some(SyscallReturnValue::I2cWrite(error_from_code(r0))),
        Syscall::Alloc { .. } => Some(SyscallReturnValue::Alloc(r0)),
        _ => None,
    }
}

/// The word that carries `value` back to the task in r0.
pub open spec fn word_of(value: SyscallReturnValue) -> u32 {
    match value {
        SyscallReturnValue::Millis(m) => m,
        SyscallReturnValue::GpioRead(b) => if b { 1 } else { 0 },
        SyscallReturnValue::I2cWrite(e) => error_code(e),
        SyscallReturnValue::Alloc(p) => p,
        SyscallReturnValue::Nothing => 0,
    }
}

impl Syscall {
    /// The registers that carry this request to the kernel.
    pub fn registers(&self) -> (frame: TrapFrame)
        ensures
            frame == registers_of(*self),
    {
        match self {
            Syscall::Exit => TrapFrame { r0: 0, r1: 0, r2: 0, r3: 0, r12: 0 },
            Syscall::Yield { sp, pc, until } => TrapFrame {
                r0: *sp,
                r1: *pc,
                r2: match until {
                    Some(u) => *u,
                    None => 0,
                },
                r3: 0,
                r12: 1,
            },
            Syscall::Millis => TrapFrame { r0: 0, r1: 0, r2: 0, r3: 0, r12: 2 },
            Syscall::GpioRead { pin } => TrapFrame { r0: pin.1.address(), r1: pin.0, r2: 0, r3: 0, r12: 3 },
            Syscall::GpioWrite { pin, value } => TrapFrame {
                r0: pin.1.address(),
                r1: pin.0,
                r2: if *value { 1 } else { 0 },
                r3: 0,
                r12: 4,
            },
            Syscall::I2cWrite { address, data, len } => TrapFrame {
                r0: *address as u32,
                r1: *data,
                r2: *len,
                r3: 0,
                r12: 5,
            },
            Syscall::Panic => TrapFrame { r0: 0, r1: 0, r2: 0, r3: 0, r12: 6 },
            Syscall::Alloc { size, align } => TrapFrame { r0: *size, r1: *align, r2: 0, r3: 0, r12: 7 },
            Syscall::Dealloc { ptr, size, align } => TrapFrame { r0: *ptr, r1: *size, r2: *align, r3: 0, r12: 8 },
        }
    }

    /// What the task makes of the word `r0` the kernel returned: the answer to
    /// a request that has one, `None` for the others.
    pub fn result(&self, r0: u32) -> (r: Option<SyscallReturnValue>)
        ensures
            r == result_of(*self, r0),
    {
        match self {
            Syscall::Millis => Some(SyscallReturnValue::Millis(r0)),
            Syscall::GpioRead { .. } => Some(SyscallReturnValue::GpioRead(r0 != 0)),
            Syscall::I2cWrite { .. } => Some(SyscallReturnValue::I2cWrite(I2cError::from(r0))),
            Syscall::Alloc { .. } => Some(SyscallReturnValue::Alloc(r0)),
            _ => None,
        }
    }
}

impl SyscallReturnValue {
    /// The word that carries this answer back in r0.
    pub fn word(&self) -> (w: u32)
        ensures
            w == word_of(*self),
    {
        match self {
            SyscallReturnValue::Millis(m) => *m,
            SyscallReturnValue::GpioRead(b) => if *b { 1 } else { 0 },
            SyscallReturnValue::I2cWrite(e) => e.code(),
            SyscallReturnValue::Alloc(p) => *p,
            SyscallReturnValue::Nothing => 0,
        }
    }
}

} // verus!
