use vstd::prelude::*;
use crate::sys::{RegisterFile, bit_of, with_bit_set, with_bit_cleared};

verus! {

/// Writes `data` to the register at `address`.
pub fn wreg(regs: &mut RegisterFile, address: u32, data: u32)
    ensures
        final(regs)@ == old(regs)@.insert(address, data),
        final(regs).writes() == old(regs).writes().push((address, data)),
        forall|a: u32| #[trigger] final(regs).queue(a) == old(regs).queue(a),
{
    regs.write(address, data);
}

/// Reads the register at `address`.
pub fn rreg(regs: &RegisterFile, address: u32) -> (data: u32)
    ensures
        data == regs@[address],
{
    regs.read(address)
}

/// Sets (`value` true) or clears (`value` false) bit `bit` of the register at `address`.
pub fn wbit(regs: &mut RegisterFile, address: u32, bit: u32, value: bool)
    requires
        bit < 32,
    ensures
        final(regs)@ == old(regs)@.insert(
            address,
            if value {
                old(regs)@[address] | (1u32 << bit)
            } else {
                old(regs)@[address] & !(1u32 << bit)
            },
        ),
        bit_of(final(regs)@[address], bit) == value,
        final(regs).writes() == old(regs).writes().push((address, final(regs)@[address])),
        forall|a: u32| #[trigger] final(regs).queue(a) == old(regs).queue(a),
{
    let data = rreg(regs, address);
    if value {
        wreg(regs, address, with_bit_set(data, bit));
    } else {
        wreg(regs, address, with_bit_cleared(data, bit));
    }
}

/// Whether bit `bit` of the register at `address` is set.
pub fn rbit(regs: &RegisterFile, address: u32, bit: u32) -> (set: bool)
    requires
        bit < 32,
    ensures
        set == bit_of(regs@[address], bit),
{
    let data = rreg(regs, address);
    let r = (data & (1u32 << bit)) != 0;
    assert(r == bit_of(data, bit)) by (bit_vector)
        requires
            r == ((data & (1u32 << bit)) != 0),
            bit < 32,
    ;
    r
}

/// Does nothing; a spin-loop body that the compiler keeps.
pub fn nop() {
}

} // verus!
