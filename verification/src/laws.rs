use vstd::prelude::*;
use crate::sys::bit_of;
use crate::shared::gpio::bank_address;
use crate::shared::kernel::{Syscall, SyscallReturnValue, registers_of, result_of, word_of};
use crate::shared::i2c::lemma_error_code_round_trip;
use crate::shared::memory::heap::{
    BumpAllocator, allocated, align_up_of, is_power_of_two, rounds_up_to, saturating_sum,
};
use crate::kernel::kernel::{SyscallError, bank_from_address, decode_spec};
use crate::internals::mmu::l2::{frame_address, frame_index, is_first_free};
use crate::internals::timer::{DmTimer, Timer, dm_interrupt, dm_number};
use crate::boards::bblack::internals::interrupts::{Interrupt, line_of};
use crate::boards::bblack::peripherals::gpio::{
    GpioBank, GPIO_OE, bank_register, gpio_initialized, outputs_from, with_bit,
};
use crate::kernel::internals::tasks::{
    MAX_TASKS, Task, TaskState, executable_at, find_first, runnable_at, scan_from, slot,
};

verus! {

/// A GPIO controller's base address names it back.
pub proof fn law_bank_address_decodes(bank: crate::shared::gpio::GpioBank)
    ensures
        bank_from_address(bank_address(bank)) == bank,
{
}

/// What a task puts in the registers for a request is what the kernel reads
/// out of them: decoding the registers of any request gives the request back.
/// A yield whose timeout is 0 is the one exception: 0 in r2 means no timeout.
pub proof fn law_syscall_round_trip(s: Syscall)
    requires
        !(s matches Syscall::Yield { until: Some(u), .. } && u == 0),
    ensures
        decode_spec(registers_of(s)) == Ok::<Syscall, SyscallError>(s),
{
    match s {
        Syscall::GpioRead { pin } => {
            law_bank_address_decodes(pin.1);
        },
        Syscall::GpioWrite { pin, value } => {
            law_bank_address_decodes(pin.1);
        },
        Syscall::I2cWrite { address, data, len } => {
            assert((address as u32) as u8 == address) by (bit_vector);
        },
        _ => {},
    }
}

/// Whether `v` is the kind of answer that request `s` gets.
pub open spec fn answers(s: Syscall, v: SyscallReturnValue) -> bool {
    match s {
        Syscall::Millis => v is Millis,
        Syscall::GpioRead { .. } => v is GpioRead,
        Syscall::I2cWrite { .. } => v is I2cWrite,
        Syscall::Alloc { .. } => v is Alloc,
        _ => false,
    }
}

/// What the kernel answers to a request is what the task reads back from r0.
pub proof fn law_reply_round_trip(s: Syscall, v: SyscallReturnValue)
    requires
        answers(s, v),
    ensures
        result_of(s, word_of(v)) == Some(v),
{
    if let SyscallReturnValue::I2cWrite(e) = v {
        lemma_error_code_round_trip(e);
    }
}

/// Setting a bit of a register makes it read set and leaves the other bits
/// and the other registers as they were.
pub proof fn law_read_after_set(m: Map<u32, u32>, address: u32, bit: u32, other: u32, b: u32)
    requires
        bit < 32,
        b < 32,
        b != bit,
    ensures
        bit_of(m.insert(address, m[address] | (1u32 << bit))[address], bit),
        bit_of(m.insert(address, m[address] | (1u32 << bit))[address], b) == bit_of(m[address], b),
        other != address ==> m.insert(address, m[address] | (1u32 << bit))[other] == m[other],
{
    let v = m[address];
    assert(bit_of(v | (1u32 << bit), bit)) by (bit_vector)
        requires
            bit < 32,
    ;
    assert(bit_of(v | (1u32 << bit), b) == bit_of(v, b)) by (bit_vector)
        requires
            bit < 32,
            b < 32,
            b != bit,
    ;
}

/// Clearing a bit of a register makes it read clear and leaves the other bits
/// and the other registers as they were.
pub proof fn law_read_after_clear(m: Map<u32, u32>, address: u32, bit: u32, other: u32, b: u32)
    requires
        bit < 32,
        b < 32,
        b != bit,
    ensures
        !bit_of(m.insert(address, m[address] & !(1u32 << bit))[address], bit),
        bit_of(m.insert(address, m[address] & !(1u32 << bit))[address], b) == bit_of(m[address], b),
        other != address ==> m.insert(address, m[address] & !(1u32 << bit))[other] == m[other],
{
    let v = m[address];
    assert(!bit_of(v & !(1u32 << bit), bit)) by (bit_vector)
        requires
            bit < 32,
    ;
    assert(bit_of(v & !(1u32 << bit), b) == bit_of(v, b)) by (bit_vector)
        requires
            bit < 32,
            b < 32,
            b != bit,
    ;
}

/// Rounding up to a power of two always has a result below the next multiple.
pub proof fn lemma_align_up_exists(addr: usize, align: usize)
    requires
        is_power_of_two(align),
        addr + align - 1 <= usize::MAX,
    ensures
        rounds_up_to(align_up_of(addr, align), addr, align),
{
    let r = ((addr + (align - 1)) as usize) & !((align - 1) as usize);
    assert(((addr + ((align - 1) as usize)) as usize) >= addr);
    assert(rounds_up_to(r, addr, align)) by (bit_vector)
        requires
            align != 0,
            align & ((align - 1) as usize) == 0,
            ((addr + ((align - 1) as usize)) as usize) >= addr,
            r == ((addr + ((align - 1) as usize)) as usize) & !((align - 1) as usize),
    ;
}

/// Whether a request for `size` bytes aligned to `align` fits in the heap left.
pub open spec fn fits(before: BumpAllocator, size: usize, align: usize) -> bool {
    saturating_sum(align_up_of(before.next(), align), size) <= before.heap_end()
}

/// Every allocation that fits hands out a block aligned to `align`, at or past
/// the allocator's next free address, that ends where the next allocation will
/// start and within the heap; one that does not fit returns 0 and changes
/// nothing. (A heap that ends at the last address is left out: there a block
/// could wrap around.)
pub proof fn law_allocation_in_heap(before: BumpAllocator, after: BumpAllocator, size: usize, align: usize, ptr: usize)
    requires
        is_power_of_two(align),
        before.next() + align - 1 <= usize::MAX,
        before.heap_end() < usize::MAX,
        allocated(before, after, size, align, ptr),
    ensures
        fits(before, size, align) ==> {
            &&& ptr & ((align - 1) as usize) == 0
            &&& before.next() <= ptr
            &&& ptr + size == after.next()
            &&& after.next() <= after.heap_end()
        },
        !fits(before, size, align) ==> ptr == 0 && after.next() == before.next(),
{
    lemma_align_up_exists(before.next(), align);
}

/// Two successive allocations that both fit hand out blocks that do not
/// overlap: the second starts at or after the end of the first.
pub proof fn law_successive_allocations_disjoint(
    a0: BumpAllocator,
    a1: BumpAllocator,
    a2: BumpAllocator,
    size1: usize,
    align1: usize,
    ptr1: usize,
    size2: usize,
    align2: usize,
    ptr2: usize,
)
    requires
        is_power_of_two(align1),
        is_power_of_two(align2),
        a0.next() + align1 - 1 <= usize::MAX,
        a1.next() + align2 - 1 <= usize::MAX,
        a0.heap_end() < usize::MAX,
        allocated(a0, a1, size1, align1, ptr1),
        allocated(a1, a2, size2, align2, ptr2),
        fits(a0, size1, align1),
        fits(a1, size2, align2),
    ensures
        ptr1 + size1 <= ptr2,
{
    law_allocation_in_heap(a0, a1, size1, align1, ptr1);
    law_allocation_in_heap(a1, a2, size2, align2, ptr2);
}

/// A frame that a page took from the pool is free again once the page is
/// unregistered: the frame's address leads back to it, and the pool is as it
/// was before.
pub proof fn law_frame_returned(used: Seq<bool>, i: int)
    requires
        used.len() == 256,
        is_first_free(used, i),
    ensures
        frame_index(frame_address(i)) == Some(i),
        used.update(i, true).update(i, false) == used,
{
    let k = i as u32;
    let a = frame_address(i);
    assert(a == 0x4030_0000u32 + k * 0x1000u32);
    assert(((a - 0x4030_0000u32) as u32 >> 12) == k && 0x4030_0000u32 <= a) by (bit_vector)
        requires
            k < 256,
            a == 0x4030_0000u32 + k * 0x1000u32,
    ;
    assert(used.update(i, true).update(i, false) =~= used);
}

/// A timer that was registered is found again by its interrupt line.
pub proof fn law_registered_timer_found(
    slots: Seq<Option<Timer>>,
    t: DmTimer,
    reload: u32,
    handler: usize,
    found: Option<Timer>,
)
    requires
        slots.len() == 7,
        t != DmTimer::Timer7,
        exists|d: DmTimer|
            #[trigger] dm_interrupt(d) == dm_interrupt(t) && found == slots.update(
                dm_number(t),
                Some(Timer { timer: t, reload, handler }),
            )[dm_number(d)],
    ensures
        found == Some(Timer { timer: t, reload, handler }),
{
    let d = choose|d: DmTimer|
        #[trigger] dm_interrupt(d) == dm_interrupt(t) && found == slots.update(
            dm_number(t),
            Some(Timer { timer: t, reload, handler }),
        )[dm_number(d)];
    assert(d == t);
}

/// The handler recorded for an interrupt line is the one the controller
/// names for it afterwards.
pub proof fn law_handler_registered(handlers: Seq<usize>, interrupt: Interrupt, handler: usize)
    requires
        handlers.len() == 128,
    ensures
        handlers.update(line_of(interrupt) as int, handler)[line_of(interrupt) as int] == handler,
{
}

/// Popping right after a push gives back the pushed element and the
/// elements as they were before.
pub proof fn law_push_then_pop<T>(s: Seq<T>, x: T)
    ensures
        s.push(x).len() > 0,
        s.push(x).last() == x,
        s.push(x).drop_last() == s,
{
    assert(s.push(x).drop_last() =~= s);
}

/// Removing an element in range shortens the vector by one and shifts the
/// later elements down.
pub proof fn law_remove_shrinks<T>(s: Seq<T>, i: int)
    requires
        0 <= i < s.len(),
    ensures
        s.remove(i).len() == s.len() - 1,
        forall|k: int| 0 <= k < i ==> s.remove(i)[k] == s[k],
        forall|k: int| i <= k < s.len() - 1 ==> s.remove(i)[k] == s[k + 1],
{
}

/// A wait of `ms` ticks that began at `start` is over `ms` ticks later, even
/// when the counter wraps around in between.
pub proof fn law_wait_over_after_ms(start: u32, ms: u32)
    ensures
        ((((start + ms) % 0x1_0000_0000) - start) % 0x1_0000_0000) >= ms,
{
    let now = (start + ms) % 0x1_0000_0000;
    assert((now - start) % 0x1_0000_0000 == ms) by (nonlinear_arith)
        requires
            now == (start + ms) % 0x1_0000_0000,
            0 <= start < 0x1_0000_0000,
            0 <= ms < 0x1_0000_0000,
    ;
}

/// The scan from step `k` on finds the first slot, in round order, whose task
/// satisfies `p`, or reports that none from step `k` on does.
pub proof fn lemma_scan_from(tasks: Seq<Task>, start: int, k: int, p: spec_fn(Task) -> bool)
    requires
        0 <= k <= MAX_TASKS,
    ensures
        match scan_from(tasks, start, k, p) {
            Some(i) => exists|kk: int|
                #![trigger slot(start, kk)]
                k <= kk < MAX_TASKS && i == slot(start, kk) && p(tasks[i])
                    && forall|k2: int| k <= k2 < kk ==> !p(tasks[#[trigger] slot(start, k2)]),
            None => forall|kk: int| k <= kk < MAX_TASKS ==> !p(tasks[#[trigger] slot(start, kk)]),
        },
    decreases MAX_TASKS - k,
{
    if k < MAX_TASKS {
        lemma_scan_from(tasks, start, k + 1, p);
        if !p(tasks[slot(start, k)]) {
            match scan_from(tasks, start, k + 1, p) {
                Some(i) => {
                    let kk = choose|kk: int|
                        #![trigger slot(start, kk)]
                        k + 1 <= kk < MAX_TASKS && i == slot(start, kk) && p(tasks[i])
                            && forall|k2: int| k + 1 <= k2 < kk ==> !p(tasks[#[trigger] slot(start, k2)]);
                    assert(forall|k2: int| k <= k2 < kk ==> !p(tasks[#[trigger] slot(start, k2)]));
                },
                None => {},
            }
        } else {
            assert(forall|k2: int| k <= k2 < k ==> !p(tasks[#[trigger] slot(start, k2)]));
        }
    }
}

/// The scheduler goes round the slots: the slot it picks, starting from the
/// current one, holds a task that may run, and every slot it passed on the
/// way holds one that may not; when it picks none, no task may run.
pub proof fn law_round_robin(tasks: Seq<Task>, start: int, now: u32)
    requires
        tasks.len() == MAX_TASKS,
        0 <= start < MAX_TASKS,
    ensures
        match find_first(tasks, start, runnable_at(now)) {
            Some(i) => {
                &&& 0 <= i < MAX_TASKS
                &&& executable_at(tasks[i].state_spec(), now)
                &&& exists|kk: int|
                    #![trigger slot(start, kk)]
                    0 <= kk < MAX_TASKS && i == slot(start, kk)
                        && forall|k2: int| 0 <= k2 < kk ==> !executable_at(
                            tasks[#[trigger] slot(start, k2)].state_spec(),
                            now,
                        )
            },
            None => forall|j: int| 0 <= j < MAX_TASKS ==> !executable_at(#[trigger] tasks[j].state_spec(), now),
        },
{
    let p = runnable_at(now);
    lemma_scan_from(tasks, start, 0, p);
    match find_first(tasks, start, p) {
        Some(i) => {},
        None => {
            assert forall|j: int| 0 <= j < MAX_TASKS implies !executable_at(#[trigger] tasks[j].state_spec(), now) by {
                let kk = (j - start + MAX_TASKS) % (MAX_TASKS as int);
                assert(slot(start, kk) == j);
                assert(!p(tasks[slot(start, kk)]));
            }
        },
    }
}

/// A terminated task is never picked to run.
pub proof fn law_terminated_never_runs(t: Task, now: u32)
    requires
        t.state_spec() == TaskState::Terminated,
    ensures
        !runnable_at(now)(t),
{
}

/// Making pins `first..=24` of bank 1 outputs leaves the direction of each
/// lower pin as it was.
pub proof fn lemma_outputs_keep_lower(m: Map<u32, u32>, first: u32, b: u32)
    requires
        b < first <= 25,
    ensures
        bit_of(outputs_from(m, first, 24)[bank_register(GpioBank::Bank1, GPIO_OE)], b)
            == bit_of(m[bank_register(GpioBank::Bank1, GPIO_OE)], b),
    decreases 25 - first,
{
    let oe = bank_register(GpioBank::Bank1, GPIO_OE);
    if first <= 24 {
        let next = with_bit(m, oe, first, false);
        law_read_after_clear(m, oe, first, oe, b);
        lemma_outputs_keep_lower(next, (first + 1) as u32, b);
    }
}

/// Making pins `first..=24` of bank 1 outputs clears the direction bit of
/// each of them.
pub proof fn lemma_outputs_cleared(m: Map<u32, u32>, first: u32, b: u32)
    requires
        first <= b <= 24,
    ensures
        !bit_of(outputs_from(m, first, 24)[bank_register(GpioBank::Bank1, GPIO_OE)], b),
    decreases 25 - first,
{
    let oe = bank_register(GpioBank::Bank1, GPIO_OE);
    let next = with_bit(m, oe, first, false);
    if b == first {
        law_read_after_clear(m, oe, first, oe, (if first == 0 { 1u32 } else { 0u32 }));
        lemma_outputs_keep_lower(next, (first + 1) as u32, b);
    } else {
        lemma_outputs_cleared(next, (first + 1) as u32, b);
    }
}

/// Once the GPIO is set up, the LED pins 21 to 24 of bank 1 are outputs and
/// every other pin of bank 1 is an input.
pub proof fn law_leds_are_outputs(m: Map<u32, u32>, b: u32)
    requires
        b < 32,
    ensures
        bit_of(gpio_initialized(m)[bank_register(GpioBank::Bank1, GPIO_OE)], b) == !(21 <= b <= 24),
{
    let oe = bank_register(GpioBank::Bank1, GPIO_OE);
    let clocked = m.insert(crate::boards::bblack::clock::FuncClock::Gpio1.register_spec(), crate::boards::bblack::clock::CLOCK_ENABLE)
        .insert(crate::boards::bblack::clock::FuncClock::Gpio2.register_spec(), crate::boards::bblack::clock::CLOCK_ENABLE)
        .insert(crate::boards::bblack::clock::FuncClock::Gpio3.register_spec(), crate::boards::bblack::clock::CLOCK_ENABLE)
        .insert(crate::boards::bblack::clock::FuncClock::Gpio0.register_spec(), crate::boards::bblack::clock::CLOCK_ENABLE);
    let all_inputs = clocked.insert(oe, 0xFFFF_FFFF);
    if 21 <= b <= 24 {
        lemma_outputs_cleared(all_inputs, 21, b);
    } else if b < 21 {
        lemma_outputs_keep_lower(all_inputs, 21, b);
        assert(bit_of(0xFFFF_FFFFu32, b)) by (bit_vector) requires b < 32;
    } else {
        lemma_outputs_above(all_inputs, 21, b);
        assert(bit_of(0xFFFF_FFFFu32, b)) by (bit_vector) requires b < 32;
    }
}

/// Making pins `first..=24` of bank 1 outputs leaves the direction of each
/// pin above 24 as it was.
pub proof fn lemma_outputs_above(m: Map<u32, u32>, first: u32, b: u32)
    requires
        24 < b < 32,
        first <= 25,
    ensures
        bit_of(outputs_from(m, first, 24)[bank_register(GpioBank::Bank1, GPIO_OE)], b)
            == bit_of(m[bank_register(GpioBank::Bank1, GPIO_OE)], b),
    decreases 25 - first,
{
    let oe = bank_register(GpioBank::Bank1, GPIO_OE);
    if first <= 24 {
        let next = with_bit(m, oe, first, false);
        law_read_after_clear(m, oe, first, oe, b);
        lemma_outputs_above(next, (first + 1) as u32, b);
    }
}

/// The pool never hands out a frame in use: the frame a page gets was free,
/// and the next page gets another one (a task's code and data pages lie in
/// different frames).
pub proof fn law_fresh_frames_distinct(used: Seq<bool>, a: int, b: int)
    requires
        used.len() == 256,
        is_first_free(used, a),
        is_first_free(used.update(a, true), b),
    ensures
        !used[a],
        !used[b],
        a != b,
        frame_address(a) != frame_address(b),
{
    let ka = a as u32;
    let kb = b as u32;
    assert(0x4030_0000u32 + ka * 0x1000u32 != 0x4030_0000u32 + kb * 0x1000u32) by (bit_vector)
        requires
            ka < 256,
            kb < 256,
            ka != kb,
    ;
}

} // verus!
