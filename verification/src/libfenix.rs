pub mod gpio;
pub mod i2c;
pub mod sysclock;

use vstd::prelude::*;
use crate::shared::kernel::{Syscall, TrapFrame, registers_of};

verus! {

/// Ends the calling task: issues the exit request through `svc`. A supervisor
/// call `svc(frame, bytes)` hands the request's registers, and the bytes it
/// refers to (none here), to the kernel and returns the kernel's r0.
pub fn exit(svc: impl Fn(TrapFrame, &[u8]) -> u32)
    requires
        forall|f: TrapFrame, b: &[u8]| #[trigger] svc.requires((f, b)),
    ensures
        exists|w: u32, b: &[u8]| b@.len() == 0 && #[trigger] svc.ensures((registers_of(Syscall::Exit), b), w),
{
    let syscall = Syscall::Exit;
    let none: [u8; 0] = [];
    let _ = svc(syscall.registers(), none.as_slice());
}

} // verus!
