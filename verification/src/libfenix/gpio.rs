use vstd::prelude::*;
use crate::shared::gpio::GpioPin;
use crate::shared::kernel::{Syscall, TrapFrame, registers_of};

verus! {

/// Reads the level of `pin` by a request through `svc` (see `libfenix::exit`):
/// high when the kernel answers a nonzero word.
pub fn read(svc: impl Fn(TrapFrame, &[u8]) -> u32, pin: GpioPin) -> (high: bool)
    requires
        forall|f: TrapFrame, b: &[u8]| #[trigger] svc.requires((f, b)),
    ensures
        exists|w: u32, b: &[u8]|
            b@.len() == 0 && #[trigger] svc.ensures((registers_of(Syscall::GpioRead { pin }), b), w) && high == (w != 0),
{
    let syscall = Syscall::GpioRead { pin };
    let none: [u8; 0] = [];
    let w = svc(syscall.registers(), none.as_slice());
    w != 0
}

/// Drives `pin` high (`value` true) or low by a request through `svc`.
pub fn write(svc: impl Fn(TrapFrame, &[u8]) -> u32, pin: GpioPin, value: bool)
    requires
        forall|f: TrapFrame, b: &[u8]| #[trigger] svc.requires((f, b)),
    ensures
        exists|w: u32, b: &[u8]| b@.len() == 0 && #[trigger] svc.ensures((registers_of(Syscall::GpioWrite { pin, value }), b), w),
{
    let syscall = Syscall::GpioWrite { pin, value };
    let none: [u8; 0] = [];
    let _ = svc(syscall.registers(), none.as_slice());
}

} // verus!
