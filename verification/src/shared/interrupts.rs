use vstd::prelude::*;

verus! {

/// The interrupt-disable (I) bit of the program status register.
pub const IRQ_DISABLE: u32 = 0x80;

/// The processor state that interrupt masking acts on: the current program
/// status register.
pub struct Cpu {
    pub cpsr: u32,
}

/// Whether interrupts are enabled in the status word `cpsr`.
pub open spec fn irqs_enabled(cpsr: u32) -> bool {
    cpsr & 0x80 == 0
}

impl Cpu {
    /// A processor in the given status.
    pub fn new(cpsr: u32) -> (cpu: Self)
        ensures
            cpu.cpsr == cpsr,
    {
        Cpu { cpsr }
    }
}

/// Enables interrupts and returns the status word as it was before.
pub fn enable_interrupts(cpu: &mut Cpu) -> (saved: u32)
    ensures
        saved == old(cpu).cpsr,
        final(cpu).cpsr == old(cpu).cpsr & !0x80u32,
        irqs_enabled(final(cpu).cpsr),
{
    let cpsr = cpu.cpsr;
    cpu.cpsr = cpsr & !0x80u32;
    assert((cpsr & !0x80u32) & 0x80 == 0) by (bit_vector);
    cpsr
}

/// Disables interrupts and returns the status word as it was before.
pub fn disable_interrupts(cpu: &mut Cpu) -> (saved: u32)
    ensures
        saved == old(cpu).cpsr,
        final(cpu).cpsr == old(cpu).cpsr | 0x80u32,
        !irqs_enabled(final(cpu).cpsr),
{
    let cpsr = cpu.cpsr;
    cpu.cpsr = cpsr | 0x80u32;
    assert((cpsr | 0x80u32) & 0x80 != 0) by (bit_vector);
    cpsr
}

/// Puts back a status word saved by `enable_interrupts` or `disable_interrupts`.
pub fn restore_cpsr(cpu: &mut Cpu, cpsr: u32)
    ensures
        final(cpu).cpsr == cpsr,
{
    cpu.cpsr = cpsr;
}

/// Runs `f` with interrupts enabled, then restores the previous interrupt
/// state; `f` is handed the status word it starts with.
pub fn enabled<F, T>(cpu: &mut Cpu, f: F) -> (result: T)
    where
        F: FnOnce(u32) -> T,
    requires
        forall|c: u32| irqs_enabled(c) ==> #[trigger] f.requires((c,)),
    ensures
        f.ensures((old(cpu).cpsr & !0x80u32,), result),
        irqs_enabled(old(cpu).cpsr & !0x80u32),
        final(cpu).cpsr == old(cpu).cpsr,
{
    let cpsr = enable_interrupts(cpu);
    let result = f(cpu.cpsr);
    restore_cpsr(cpu, cpsr);
    result
}

/// Runs `f` with interrupts disabled, then restores the previous interrupt
/// state; `f` is handed the status word it starts with.
pub fn free<F, T>(cpu: &mut Cpu, f: F) -> (result: T)
    where
        F: FnOnce(u32) -> T,
    requires
        forall|c: u32| !irqs_enabled(c) ==> #[trigger] f.requires((c,)),
    ensures
        f.ensures((old(cpu).cpsr | 0x80u32,), result),
        !irqs_enabled(old(cpu).cpsr | 0x80u32),
        final(cpu).cpsr == old(cpu).cpsr,
{
    let cpsr = disable_interrupts(cpu);
    let result = f(cpu.cpsr);
    restore_cpsr(cpu, cpsr);
    result
}

/// A value that is only touched with interrupts disabled.
pub struct CriticalSection<T> {
    inner: T,
}

impl<T> CriticalSection<T> {
    /// The value that the section guards.
    pub closed spec fn value(&self) -> T {
        self.inner
    }

    /// A section guarding `value`.
    pub fn new(value: T) -> (cs: Self)
        ensures
            cs.value() == value,
    {
        CriticalSection { inner: value }
    }

    /// Disables interrupts and hands out the guarded value; the guard keeps the
    /// status word to restore when it is released.
    pub fn lock<'a>(&'a mut self, cpu: &mut Cpu) -> (guard: CriticalSectionGuard<'a, T>)
        ensures
            *guard.value == old(self).value(),
            final(self).value() == *final(guard.value),
            guard.cpsr == old(cpu).cpsr,
            final(cpu).cpsr == old(cpu).cpsr | 0x80u32,
    {
        let cpsr = disable_interrupts(cpu);
        CriticalSectionGuard { value: &mut self.inner, cpsr }
    }
}

/// Exclusive access to the value of a `CriticalSection` while interrupts are off.
pub struct CriticalSectionGuard<'a, T> {
    pub value: &'a mut T,
    pub cpsr: u32,
}

impl<'a, T> CriticalSectionGuard<'a, T> {
    /// Ends the critical section: the status word saved by `lock` is put back.
    pub fn release(self, cpu: &mut Cpu)
        ensures
            final(cpu).cpsr == self.cpsr,
            *final(self.value) == *old(self.value),
    {
        restore_cpsr(cpu, self.cpsr);
    }
}

} // verus!
