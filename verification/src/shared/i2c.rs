use vstd::prelude::*;

verus! {

/// The I2C address that formatted output goes to.
pub const PRINT_ADDRESS: u8 = 0x10;

/// The outcome of an I2C write, as the kernel reports it to tasks.
#[derive(Clone, Copy, PartialEq, Eq, Structural, Debug)]
pub enum I2cError {
    Success,
    Nack,
    ArbitrationLoss,
}

/// The number that stands for an outcome in a register.
pub open spec fn error_code(e: I2cError) -> u32 {
    match e {
        I2cError::Success => 0,
        I2cError::Nack => 1,
        I2cError::ArbitrationLoss => 2,
    }
}

/// The outcome that a register value stands for; unknown numbers mean success.
pub open spec fn error_from_code(value: u32) -> I2cError {
    match value {
        1 => I2cError::Nack,
        2 => I2cError::ArbitrationLoss,
        _ => I2cError::Success,
    }
}

impl I2cError {
    /// The number that stands for this outcome in a register.
    pub fn code(&self) -> (c: u32)
        ensures
            c == error_code(*self),
    {
        match self {
            I2cError::Success => 0,
            I2cError::Nack => 1,
            I2cError::ArbitrationLoss => 2,
        }
    }
}

impl From<u32> for I2cError {
    /// 0 is success, 1 a missing acknowledge, 2 lost arbitration; any other
    /// number is taken as success.
    fn from(value: u32) -> (r: Self) {
        match value {
            0 => I2cError::Success,
            1 => I2cError::Nack,
            2 => I2cError::ArbitrationLoss,
            _ => I2cError::Success,
        }
    }
}

impl vstd::std_specs::convert::FromSpecImpl<u32> for I2cError {
    open spec fn obeys_from_spec() -> bool {
        true
    }

    open spec fn from_spec(value: u32) -> Self {
        error_from_code(value)
    }
}

/// Reading back the number of an outcome gives the outcome.
pub proof fn lemma_error_code_round_trip(e: I2cError)
    ensures
        error_from_code(error_code(e)) == e,
{
}

} // verus!
