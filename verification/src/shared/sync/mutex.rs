use vstd::prelude::*;
use crate::shared::interrupts::{Cpu, disable_interrupts, restore_cpsr};

verus! {

/// A value shared between the kernel and interrupt handlers; locking it masks
/// interrupts.
pub struct Mutex<T> {
    inner: T,
}

impl<T> Mutex<T> {
    /// The value that the mutex guards.
    pub closed spec fn value(&self) -> T {
        self.inner
    }

    /// A mutex guarding `value`.
    pub fn new(value: T) -> (m: Self)
        ensures
            m.value() == value,
    {
        Mutex { inner: value }
    }

    /// Disables interrupts and hands out the guarded value; the guard keeps the
    /// status word to restore when it is released.
    pub fn lock<'a>(&'a mut self, cpu: &mut Cpu) -> (guard: MutexGuard<'a, T>)
        ensures
            *guard.value == old(self).value(),
            final(self).value() == *final(guard.value),
            guard.cpsr == old(cpu).cpsr,
            final(cpu).cpsr == old(cpu).cpsr | 0x80u32,
    {
        let cpsr = disable_interrupts(cpu);
        MutexGuard { value: &mut self.inner, cpsr }
    }
}

/// Exclusive access to the value of a `Mutex` while interrupts are off.
pub struct MutexGuard<'a, T> {
    pub value: &'a mut T,
    pub cpsr: u32,
}

impl<'a, T> MutexGuard<'a, T> {
    /// Unlocks: the status word saved by `lock` is put back.
    pub fn release(self, cpu: &mut Cpu)
        ensures
            final(cpu).cpsr == self.cpsr,
            *final(self.value) == *old(self.value),
    {
        restore_cpsr(cpu, self.cpsr);
    }
}

} // verus!
