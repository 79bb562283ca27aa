use fenix::memory::vec::Vec;
use fenix::shared::interrupts::{disable_interrupts, enable_interrupts, enabled, free, restore_cpsr, Cpu, CriticalSection};
use fenix::shared::memory::heap::{align_up, BumpAllocator};
use fenix::shared::sync::mutex::Mutex;

#[test]
fn align_up_values() {
    assert_eq!(align_up(0, 8), 0);
    assert_eq!(align_up(1, 8), 8);
    assert_eq!(align_up(8, 8), 8);
    assert_eq!(align_up(9, 4), 12);
    assert_eq!(align_up(0x1001, 0x1000), 0x2000);
    assert_eq!(align_up(5, 1), 5);
}

#[test]
fn bump_allocations_are_aligned_and_disjoint() {
    let mut cpu = Cpu::new(0x13);
    let mut heap = BumpAllocator::new();
    heap.init(&mut cpu, 0x1001, 0x2000);
    let a = heap.allocate(&mut cpu, 10, 4);
    assert_eq!(a, 0x1004);
    let b = heap.allocate(&mut cpu, 16, 16);
    assert_eq!(b, 0x1010);
    assert!(a + 10 <= b);
    let c = heap.allocate(&mut cpu, 1, 1);
    assert_eq!(c, 0x1020);
    assert_eq!(cpu.cpsr, 0x13);
}

#[test]
fn bump_allocation_past_the_end_returns_null() {
    let mut cpu = Cpu::new(0);
    let mut heap = BumpAllocator::start(0x100);
    heap.init(&mut cpu, 0x100, 0x140);
    assert_eq!(heap.allocate(&mut cpu, 0x41, 1), 0);
    // nothing was taken: the whole heap is still there
    assert_eq!(heap.allocate(&mut cpu, 0x40, 1), 0x100);
    assert_eq!(heap.allocate(&mut cpu, 1, 1), 0);
    heap.deallocate(0x100, 0x40, 1);
    assert_eq!(heap.allocate(&mut cpu, 1, 1), 0);
}

#[test]
fn empty_heap_allocates_nothing() {
    let mut cpu = Cpu::new(0);
    let mut heap = BumpAllocator::new();
    assert_eq!(heap.allocate(&mut cpu, 1, 1), 0);
    assert_eq!(heap.allocate(&mut cpu, 0, 1), 0);
}

#[test]
fn interrupt_masking() {
    let mut cpu = Cpu::new(0x13);
    let saved = disable_interrupts(&mut cpu);
    assert_eq!(saved, 0x13);
    assert_eq!(cpu.cpsr, 0x93);
    let saved2 = enable_interrupts(&mut cpu);
    assert_eq!(saved2, 0x93);
    assert_eq!(cpu.cpsr, 0x13);
    restore_cpsr(&mut cpu, saved2);
    assert_eq!(cpu.cpsr, 0x93);
}

#[test]
fn enabled_and_free_restore_state() {
    let mut cpu = Cpu::new(0x93);
    let r = enabled(&mut cpu, |c| c);
    assert_eq!(r, 0x13);
    assert_eq!(cpu.cpsr, 0x93);
    let mut cpu = Cpu::new(0x13);
    let r = free(&mut cpu, |c| c);
    assert_eq!(r, 0x93);
    assert_eq!(cpu.cpsr, 0x13);
}

#[test]
fn critical_section_guard() {
    let mut cpu = Cpu::new(0x10);
    let mut cs = CriticalSection::new(41u32);
    let guard = cs.lock(&mut cpu);
    assert_eq!(cpu.cpsr, 0x90);
    *guard.value += 1;
    guard.release(&mut cpu);
    assert_eq!(cpu.cpsr, 0x10);
    let guard = cs.lock(&mut cpu);
    assert_eq!(*guard.value, 42);
    guard.release(&mut cpu);
}

#[test]
fn mutex_guard() {
    let mut cpu = Cpu::new(0);
    let mut m = Mutex::new(1u8);
    let g = m.lock(&mut cpu);
    assert_eq!(cpu.cpsr, 0x80);
    *g.value = 9;
    g.release(&mut cpu);
    assert_eq!(cpu.cpsr, 0);
    let g = m.lock(&mut cpu);
    assert_eq!(*g.value, 9);
    g.release(&mut cpu);
}

#[test]
fn vec_operations() {
    let mut v: Vec<u32> = Vec::new();
    assert!(v.is_empty());
    assert_eq!(v.pop(), None);
    v.push(10);
    v.push(20);
    v.push(30);
    assert_eq!(v.len(), 3);
    assert_eq!(v.get(1), Some(&20));
    assert_eq!(v.get(3), None);
    assert_eq!(v.remove(0), Some(10));
    assert_eq!(v.len(), 2);
    assert_eq!(v.get(0), Some(&20));
    assert_eq!(v.remove(5), None);
    assert_eq!(v.len(), 2);
    let mut it = v.iter();
    assert_eq!(it.next(), Some(&20));
    assert_eq!(it.next(), Some(&30));
    assert_eq!(it.next(), None);
    v.clear();
    assert!(v.is_empty());
    let d: Vec<u8> = Vec::default();
    assert_eq!(d.len(), 0);
}

#[test]
fn vec_push_then_pop_restores() {
    let mut v: Vec<u32> = Vec::new();
    v.push(1);
    v.push(2);
    assert_eq!(v.pop(), Some(2));
    assert_eq!(v.len(), 1);
    assert_eq!(v.get(0), Some(&1));
}

#[test]
fn vec_in_place_changes() {
    let mut v: Vec<u32> = Vec::new();
    v.push(1);
    v.push(2);
    v.push(3);
    if let Some(e) = v.get_mut(1) {
        *e = 20;
    }
    assert!(v.get_mut(3).is_none());
    let mut it = v.iter_mut();
    while let Some(e) = it.next() {
        *e += 1;
    }
    assert_eq!(v.get(0), Some(&2));
    assert_eq!(v.get(1), Some(&21));
    assert_eq!(v.get(2), Some(&4));
}

#[test]
fn rounding_up_at_the_top_of_memory() {
    assert_eq!(align_up(usize::MAX, 1), usize::MAX);
    assert_eq!(align_up(usize::MAX - 7, 8), usize::MAX - 7);
    let mut cpu = Cpu::new(0);
    let mut heap = BumpAllocator::new();
    heap.init(&mut cpu, usize::MAX, usize::MAX);
    assert_eq!(heap.allocate(&mut cpu, 0, 1), usize::MAX);
    // the end saturates at the last address, which is the heap's end
    assert_eq!(heap.allocate(&mut cpu, 1, 1), usize::MAX);
}
