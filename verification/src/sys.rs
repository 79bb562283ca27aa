use vstd::prelude::*;
use vstd::hash_map::HashMapWithView;

verus! {

broadcast use vstd::std_specs::hash::group_hash_axioms;

/// Base address of the peripheral clock module.
pub const CM_PER: u32 = 0x44E0_0000;
/// Base address of the DPLL clock module.
pub const CM_DPLL: u32 = 0x44E0_5000;
/// Base address of the first-bank GPIO controller used by the kernel.
pub const GPIO1: u32 = 0x4804_C000;
/// Base address of the interrupt controller.
pub const INTC: u32 = 0x4820_0000;

/// The memory-mapped register space of the board: every 32-bit word that the
/// kernel addresses, holding the value last written to it (0 before any write);
/// the values that the devices queue for the kernel to take, by address (a
/// receive FIFO); and the record of every write, oldest first.
pub struct RegisterFile {
    regs: HashMapWithView<u32, u32>,
    queued: HashMapWithView<u32, Vec<u32>>,
    log: Ghost<Seq<(u32, u32)>>,
}

/// The value of one register in a register-space view.
pub open spec fn reg_of(m: Map<u32, u32>, address: u32) -> u32 {
    if m.dom().contains(address) { m[address] } else { 0 }
}

/// Whether bit `bit` of `value` is set.
pub open spec fn bit_of(value: u32, bit: u32) -> bool {
    (value >> bit) & 1 == 1
}

/// The values written to `address`, oldest first, in the record `log`.
pub open spec fn writes_to(log: Seq<(u32, u32)>, address: u32) -> Seq<u32>
    decreases log.len(),
{
    if log.len() == 0 {
        Seq::empty()
    } else {
        let rest = writes_to(log.drop_last(), address);
        if log.last().0 == address {
            rest.push(log.last().1)
        } else {
            rest
        }
    }
}

/// One more write adds its value to the values written to its address only.
pub broadcast proof fn lemma_writes_to_push(log: Seq<(u32, u32)>, write: (u32, u32), address: u32)
    ensures
        #[trigger] writes_to(log.push(write), address) == if write.0 == address {
            writes_to(log, address).push(write.1)
        } else {
            writes_to(log, address)
        },
{
    assert(log.push(write).drop_last() =~= log);
}

/// What a read of a register with the queue `queue` takes: the first queued
/// value, or the register's value `last` when nothing is queued.
pub open spec fn next_in(queue: Seq<u32>, last: u32) -> u32 {
    if queue.len() > 0 { queue[0] } else { last }
}

/// The queue left after a read.
pub open spec fn after_read(queue: Seq<u32>) -> Seq<u32> {
    if queue.len() > 0 { queue.drop_first() } else { queue }
}

impl View for RegisterFile {
    type V = Map<u32, u32>;

    /// The whole register space as a total map from address to value (what
    /// waits to be read is `queue`, the record of writes `writes`).
    closed spec fn view(&self) -> Map<u32, u32> {
        Map::total(|a: u32| reg_of(self.regs@, a))
    }
}

impl RegisterFile {
    /// Every address of the register space holds a register.
    pub proof fn lemma_total(&self)
        ensures
            forall|a: u32| #[trigger] self@.dom().contains(a),
    {
    }

    /// Every write so far, oldest first: the address and the value.
    pub closed spec fn writes(&self) -> Seq<(u32, u32)> {
        self.log@
    }

    /// The values that wait to be read at `address`, oldest first.
    pub closed spec fn queue(&self, address: u32) -> Seq<u32> {
        if self.queued@.dom().contains(address) { self.queued@[address]@ } else { Seq::empty() }
    }

    /// A register space in which every register reads 0, nothing is queued and
    /// nothing was written.
    pub fn new() -> (r: Self)
        ensures
            r@ == Map::total(|a: u32| 0u32),
            r.writes() == Seq::<(u32, u32)>::empty(),
            forall|a: u32| #[trigger] r.queue(a) == Seq::<u32>::empty(),
    {
        let r = RegisterFile { regs: HashMapWithView::new(), queued: HashMapWithView::new(), log: Ghost(Seq::empty()) };
        assert(r@ =~= Map::total(|a: u32| 0u32));
        r
    }

    /// Reads the register at `address`.
    pub fn read(&self, address: u32) -> (value: u32)
        ensures
            value == self@[address],
    {
        match self.regs.get(&address) {
            Some(v) => *v,
            None => 0,
        }
    }

    /// Writes `value` to the register at `address`.
    pub fn write(&mut self, address: u32, value: u32)
        ensures
            final(self)@ == old(self)@.insert(address, value),
            final(self).writes() == old(self).writes().push((address, value)),
            forall|a: u32| #[trigger] final(self).queue(a) == old(self).queue(a),
    {
        self.regs.insert(address, value);
        self.log = Ghost(self.log@.push((address, value)));
        assert(self@ =~= old(self)@.insert(address, value));
    }

    /// Takes the next value that the device at `address` queued, or reads the
    /// register when nothing is queued.
    pub fn receive(&mut self, address: u32) -> (value: u32)
        ensures
            value == next_in(old(self).queue(address), old(self)@[address]),
            final(self)@ == old(self)@,
            final(self).writes() == old(self).writes(),
            final(self).queue(address) == after_read(old(self).queue(address)),
            forall|a: u32| a != address ==> #[trigger] final(self).queue(a) == old(self).queue(a),
    {
        match self.queued.remove(&address) {
            Some(mut values) => {
                if values.len() > 0 {
                    let value = values.remove(0);
                    self.queued.insert(address, values);
                    value
                } else {
                    self.queued.insert(address, values);
                    self.read(address)
                }
            },
            None => self.read(address),
        }
    }

    /// The device at `address` queues `value` for the kernel to read.
    pub fn feed(&mut self, address: u32, value: u32)
        ensures
            final(self)@ == old(self)@,
            final(self).writes() == old(self).writes(),
            final(self).queue(address) == old(self).queue(address).push(value),
            forall|a: u32| a != address ==> #[trigger] final(self).queue(a) == old(self).queue(a),
    {
        let mut values = match self.queued.remove(&address) {
            Some(values) => values,
            None => Vec::new(),
        };
        values.push(value);
        self.queued.insert(address, values);
    }
}

/// `value` with bit `bit` set.
pub fn with_bit_set(value: u32, bit: u32) -> (r: u32)
    requires
        bit < 32,
    ensures
        r == value | (1u32 << bit),
        bit_of(r, bit),
        forall|b: u32| b < 32 && b != bit ==> bit_of(r, b) == bit_of(value, b),
{
    let r = value | (1u32 << bit);
    assert(bit_of(r, bit)) by (bit_vector)
        requires
            r == value | (1u32 << bit),
            bit < 32,
    ;
    assert forall|b: u32| b < 32 && b != bit implies bit_of(r, b) == bit_of(value, b) by {
        assert(b < 32 && b != bit ==> ((value | (1u32 << bit)) >> b) & 1 == (value >> b) & 1)
            by (bit_vector);
    }
    r
}

/// `value` with bit `bit` cleared.
pub fn with_bit_cleared(value: u32, bit: u32) -> (r: u32)
    requires
        bit < 32,
    ensures
        r == value & !(1u32 << bit),
        !bit_of(r, bit),
        forall|b: u32| b < 32 && b != bit ==> bit_of(r, b) == bit_of(value, b),
{
    let r = value & !(1u32 << bit);
    assert(!bit_of(r, bit)) by (bit_vector)
        requires
            r == value & !(1u32 << bit),
            bit < 32,
    ;
    assert forall|b: u32| b < 32 && b != bit implies bit_of(r, b) == bit_of(value, b) by {
        assert(b < 32 && b != bit ==> ((value & !(1u32 << bit)) >> b) & 1 == (value >> b) & 1)
            by (bit_vector);
    }
    r
}

/// Writes `value` to the register at `address`.
pub fn write_addr(regs: &mut RegisterFile, address: u32, value: u32)
    ensures
        final(regs)@ == old(regs)@.insert(address, value),
        final(regs).writes() == old(regs).writes().push((address, value)),
        forall|a: u32| #[trigger] final(regs).queue(a) == old(regs).queue(a),
{
    regs.write(address, value);
}

/// Reads the register at `address`.
pub fn read_addr(regs: &RegisterFile, address: u32) -> (value: u32)
    ensures
        value == regs@[address],
{
    regs.read(address)
}

/// Sets bit `bit` of the register at `address`, leaving its other bits as they were.
pub fn set_bit(regs: &mut RegisterFile, address: u32, bit: u32)
    requires
        bit < 32,
    ensures
        final(regs)@ == old(regs)@.insert(address, old(regs)@[address] | (1u32 << bit)),
        final(regs).writes() == old(regs).writes().push((address, old(regs)@[address] | (1u32 << bit))),
        forall|a: u32| #[trigger] final(regs).queue(a) == old(regs).queue(a),
{
    let value = read_addr(regs, address);
    write_addr(regs, address, with_bit_set(value, bit));
}

/// Clears bit `bit` of the register at `address`, leaving its other bits as they were.
pub fn clear_bit(regs: &mut RegisterFile, address: u32, bit: u32)
    requires
        bit < 32,
    ensures
        final(regs)@ == old(regs)@.insert(address, old(regs)@[address] & !(1u32 << bit)),
        final(regs).writes() == old(regs).writes().push((address, old(regs)@[address] & !(1u32 << bit))),
        forall|a: u32| #[trigger] final(regs).queue(a) == old(regs).queue(a),
{
    let value = read_addr(regs, address);
    write_addr(regs, address, with_bit_cleared(value, bit));
}

/// Takes the next value queued at `address`, or reads the register when
/// nothing is queued.
pub fn receive_addr(regs: &mut RegisterFile, address: u32) -> (value: u32)
    ensures
        value == next_in(old(regs).queue(address), old(regs)@[address]),
        final(regs)@ == old(regs)@,
        final(regs).writes() == old(regs).writes(),
        final(regs).queue(address) == after_read(old(regs).queue(address)),
        forall|a: u32| a != address ==> #[trigger] final(regs).queue(a) == old(regs).queue(a),
{
    regs.receive(address)
}

/// Whether bit `bit` of the register at `address` is set.
pub fn read_bit(regs: &RegisterFile, address: u32, bit: u32) -> (set: bool)
    requires
        bit < 32,
    ensures
        set == bit_of(regs@[address], bit),
{
    let value = read_addr(regs, address);
    let r = (value & (1u32 << bit)) >> bit == 1;
    assert(r == bit_of(value, bit)) by (bit_vector)
        requires
            r == ((value & (1u32 << bit)) >> bit == 1),
            bit < 32,
    ;
    r
}

/// ORs `mask` into the register at `address`.
pub fn write_or(regs: &mut RegisterFile, address: u32, mask: u32)
    ensures
        final(regs)@ == old(regs)@.insert(address, old(regs)@[address] | mask),
        final(regs).writes() == old(regs).writes().push((address, old(regs)@[address] | mask)),
        forall|a: u32| #[trigger] final(regs).queue(a) == old(regs).queue(a),
{
    let value = read_addr(regs, address);
    write_addr(regs, address, value | mask);
}

/// Does nothing; the default entry of handler tables.
pub fn noop() {
}

} // verus!
