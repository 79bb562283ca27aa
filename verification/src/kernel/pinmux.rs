use vstd::prelude::*;
use crate::sys::{RegisterFile, write_addr};

verus! {

/// Base address of the control module, which holds the pad configuration registers.
pub const CONTROL_MODULE_BASE: u32 = 0x44E1_0000;
/// Pad of GPIO1_28.
pub const CONF_GPMC_BEN1: u32 = 0x878;
/// Pad of GPIO1_16.
pub const CONF_GMPC_A0: u32 = 0x840;
/// Pad of GPIO1_17.
pub const CONF_GMPC_A1: u32 = 0x844;
/// Pad of GPIO1_18.
pub const CONF_GMPC_A2: u32 = 0x848;
/// Pad of GPIO1_19.
pub const CONF_GMPC_A3: u32 = 0x84C;

/// The pull resistor of a pad.
#[derive(Clone, Copy, PartialEq, Eq, Structural)]
pub enum PullResistor {
    NoPull,
    PullDown,
    PullUp,
}

impl PullResistor {
    /// The pull bits, already shifted by 3.
    pub open spec fn mask_spec(self) -> u32 {
        match self {
            PullResistor::PullDown => 0b00u32 << 3,
            PullResistor::PullUp => 0b10u32 << 3,
            PullResistor::NoPull => 0b01u32 << 3,
        }
    }

    /// The pull bits, already shifted by 3.
    pub fn to_mask(self) -> (mask: u32)
        ensures
            mask == self.mask_spec(),
    {
        let value: u32 = match self {
            PullResistor::PullDown => 0b00,
            PullResistor::PullUp => 0b10,
            PullResistor::NoPull => 0b01,
        };
        value << 3
    }
}

/// The pad configuration word: the mode, the pull mask shifted by 3 more, and
/// the input-enable bit at bit 5.
pub open spec fn pad_word(mode: u32, input_enable: bool, pull_resistor: PullResistor) -> u32 {
    mode | (pull_resistor.mask_spec() << 3) | ((if input_enable { 1u32 } else { 0u32 }) << 5)
}

/// Configures the pad at `offset` of the control module.
pub fn set_pin_mode(regs: &mut RegisterFile, offset: u32, mode: u32, input_enable: bool, pull_resistor: PullResistor)
    requires
        CONTROL_MODULE_BASE + offset <= u32::MAX,
    ensures
        final(regs)@ == old(regs)@.insert(
            (CONTROL_MODULE_BASE + offset) as u32,
            pad_word(mode, input_enable, pull_resistor),
        ),
{
    let control_module = CONTROL_MODULE_BASE + offset;
    let input: u32 = if input_enable { 1 } else { 0 };
    write_addr(regs, control_module, mode | (pull_resistor.to_mask() << 3) | (input << 5));
}

/// Puts the pads of GPIO1_28 and GPIO1_16 to GPIO1_19 in GPIO mode (7), with
/// input enabled and pull-down.
pub fn configure(regs: &mut RegisterFile)
    ensures
        ({
            let w = pad_word(7, true, PullResistor::PullDown);
            final(regs)@ == old(regs)@
                .insert((CONTROL_MODULE_BASE + CONF_GPMC_BEN1) as u32, w)
                .insert((CONTROL_MODULE_BASE + CONF_GMPC_A0) as u32, w)
                .insert((CONTROL_MODULE_BASE + CONF_GMPC_A1) as u32, w)
                .insert((CONTROL_MODULE_BASE + CONF_GMPC_A2) as u32, w)
                .insert((CONTROL_MODULE_BASE + CONF_GMPC_A3) as u32, w)
        }),
{
    set_pin_mode(regs, CONF_GPMC_BEN1, 7, true, PullResistor::PullDown);
    set_pin_mode(regs, CONF_GMPC_A0, 7, true, PullResistor::PullDown);
    set_pin_mode(regs, CONF_GMPC_A1, 7, true, PullResistor::PullDown);
    set_pin_mode(regs, CONF_GMPC_A2, 7, true, PullResistor::PullDown);
    set_pin_mode(regs, CONF_GMPC_A3, 7, true, PullResistor::PullDown);
}

} // verus!
