use vstd::prelude::*;
use crate::shared::kernel::{Syscall, TrapFrame, registers_of};

verus! {

/// The millisecond count, asked of the kernel through `svc` (see `libfenix::exit`).
pub fn millis(svc: impl Fn(TrapFrame, &[u8]) -> u32) -> (m: u32)
    requires
        forall|f: TrapFrame, b: &[u8]| #[trigger] svc.requires((f, b)),
    ensures
        exists|b: &[u8]| b@.len() == 0 && #[trigger] svc.ensures((registers_of(Syscall::Millis), b), m),
{
    let syscall = Syscall::Millis;
    let none: [u8; 0] = [];
    svc(syscall.registers(), none.as_slice())
}

/// The millisecond count until which a wait of `ms` begun at `now` lasts; a
/// count past the largest one is cut to it.
pub fn wait_until(now: u32, ms: u32) -> (until: u32)
    ensures
        until == (if now + ms > u32::MAX { u32::MAX as int } else { now + ms }),
{
    now.saturating_add(ms)
}

} // verus!
