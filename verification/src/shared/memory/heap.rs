use vstd::prelude::*;
use crate::shared::interrupts::{Cpu, CriticalSection};

verus! {

/// Whether `align` is a valid allocation alignment: a power of two.
pub open spec fn is_power_of_two(align: usize) -> bool {
    align != 0 && align & ((align - 1) as usize) == 0
}

/// `r` is `addr` rounded up to a multiple of `align`: the one value in
/// `addr ..= addr + align - 1` whose low bits under `align` are all zero.
pub open spec fn rounds_up_to(r: usize, addr: usize, align: usize) -> bool {
    &&& r & ((align - 1) as usize) == 0
    &&& addr <= r
    &&& r < addr + align
}

/// `addr` rounded up to the next multiple of `align`.
pub open spec fn align_up_of(addr: usize, align: usize) -> usize {
    choose|r: usize| rounds_up_to(r, addr, align)
}

/// At most one value rounds `addr` up to `align`.
pub proof fn lemma_round_up_unique(r1: usize, r2: usize, addr: usize, align: usize)
    requires
        is_power_of_two(align),
        rounds_up_to(r1, addr, align),
        rounds_up_to(r2, addr, align),
    ensures
        r1 == r2,
{
    assert(r1 == r2) by (bit_vector)
        requires
            align != 0,
            align & ((align - 1) as usize) == 0,
            r1 & ((align - 1) as usize) == 0,
            r2 & ((align - 1) as usize) == 0,
            addr <= r1,
            r1 < addr + align,
            addr <= r2,
            r2 < addr + align,
    ;
}

/// Rounds `addr` up to the next multiple of `align` (a power of two).
pub fn align_up(addr: usize, align: usize) -> (r: usize)
    requires
        is_power_of_two(align),
        addr + align - 1 <= usize::MAX,
    ensures
        rounds_up_to(r, addr, align),
        r == align_up_of(addr, align),
{
    let r = (addr + (align - 1)) & !(align - 1);
    assert(((addr + ((align - 1) as usize)) as usize) >= addr);
    assert(rounds_up_to(r, addr, align)) by (bit_vector)
        requires
            align != 0,
            align & ((align - 1) as usize) == 0,
            ((addr + ((align - 1) as usize)) as usize) >= addr,
            r == ((addr + ((align - 1) as usize)) as usize) & !((align - 1) as usize),
    ;
    proof {
        let c = align_up_of(addr, align);
        assert(rounds_up_to(c, addr, align));
        lemma_round_up_unique(r, c, addr, align);
    }
    r
}

/// `a + b`, or `usize::MAX` where the sum does not fit.
pub open spec fn saturating_sum(a: usize, b: usize) -> usize {
    if a + b > usize::MAX { usize::MAX } else { (a + b) as usize }
}

/// `after` is `before` after a request for `size` bytes aligned to `align`
/// that returned `ptr`: the block starts at the next free address rounded up to
/// `align`; when it would end past the heap, `ptr` is 0 and nothing changes.
pub open spec fn allocated(before: BumpAllocator, after: BumpAllocator, size: usize, align: usize, ptr: usize) -> bool {
    let start = align_up_of(before.next(), align);
    let end = saturating_sum(start, size);
    &&& after.heap_start() == before.heap_start()
    &&& after.heap_end() == before.heap_end()
    &&& if end > before.heap_end() {
        ptr == 0 && after.next() == before.next()
    } else {
        ptr == start && after.next() == end
    }
}

/// A bump allocator: hands out memory from `heap_start .. heap_end` in
/// increasing order and never takes it back.
pub struct BumpAllocator {
    heap_start: usize,
    heap_end: usize,
    next: CriticalSection<usize>,
}

impl BumpAllocator {
    /// First address of the heap.
    pub closed spec fn heap_start(&self) -> usize {
        self.heap_start
    }

    /// End of the heap: no allocation reaches past it.
    pub closed spec fn heap_end(&self) -> usize {
        self.heap_end
    }

    /// Where the next allocation will start looking.
    pub closed spec fn next(&self) -> usize {
        self.next.value()
    }

    /// An allocator over an empty heap at address 0.
    pub fn new() -> (a: Self)
        ensures
            a.heap_start() == 0,
            a.heap_end() == 0,
            a.next() == 0,
    {
        BumpAllocator { heap_start: 0, heap_end: 0, next: CriticalSection::new(0) }
    }

    /// An allocator whose heap starts at `start` and whose end is not set yet.
    pub fn start(start: usize) -> (a: Self)
        ensures
            a.heap_start() == start,
            a.heap_end() == 0,
            a.next() == start,
    {
        BumpAllocator { heap_start: start, heap_end: 0, next: CriticalSection::new(start) }
    }

    /// Sets the heap to `start .. end` and resets the allocation pointer to its start.
    pub fn init(&mut self, cpu: &mut Cpu, start: usize, end: usize)
        ensures
            final(self).heap_start() == start,
            final(self).heap_end() == end,
            final(self).next() == start,
            final(cpu).cpsr == old(cpu).cpsr,
    {
        self.heap_start = start;
        self.heap_end = end;
        let guard = self.next.lock(cpu);
        *guard.value = start;
        guard.release(cpu);
    }

    /// Allocates `size` bytes aligned to `align`: the block starts at the next
    /// free address rounded up to `align`. Returns 0 (the null pointer) and
    /// changes nothing when the block would end past the heap.
    pub fn allocate(&mut self, cpu: &mut Cpu, size: usize, align: usize) -> (ptr: usize)
        requires
            is_power_of_two(align),
            old(self).next() + align - 1 <= usize::MAX,
        ensures
            final(cpu).cpsr == old(cpu).cpsr,
            allocated(*old(self), *final(self), size, align, ptr),
    {
        let guard = self.next.lock(cpu);
        let current = *guard.value;
        let alloc_start = align_up(current, align);
        let alloc_end = alloc_start.saturating_add(size);
        if alloc_end > self.heap_end {
            guard.release(cpu);
            0
        } else {
            *guard.value = alloc_end;
            guard.release(cpu);
            alloc_start
        }
    }

    /// Gives memory back; a bump allocator never reuses memory, so nothing changes.
    pub fn deallocate(&self, _ptr: usize, _size: usize, _align: usize) {
    }
}

} // verus!
