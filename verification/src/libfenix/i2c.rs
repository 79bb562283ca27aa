use vstd::prelude::*;
use vstd::string::StringSliceAdditionalSpecFns;
use crate::shared::i2c::{I2cError, PRINT_ADDRESS, error_from_code};
use crate::shared::kernel::{Syscall, TrapFrame, registers_of};

verus! {

/// The registers of a request to send `len` bytes to the I2C device at
/// `address`. Register r1, the address of the bytes in the task's memory, is
/// 0 here: the supervisor call, which is handed the bytes themselves, puts
/// their address there.
pub open spec fn i2c_frame(address: u8, len: u32) -> TrapFrame {
    registers_of(Syscall::I2cWrite { address, data: 0, len })
}

/// The outcome of a print that the kernel answered with `e`.
pub open spec fn print_result(e: I2cError) -> Result<(), I2cError> {
    if e == I2cError::Success {
        Ok(())
    } else {
        Err(e)
    }
}

/// Sends `data` to the I2C device at `address` by a request through `svc`
/// (see `libfenix::exit`), and gives back the outcome the kernel reports.
pub fn write_buf(svc: impl Fn(TrapFrame, &[u8]) -> u32, address: u8, data: &[u8]) -> (e: I2cError)
    requires
        forall|f: TrapFrame, b: &[u8]| #[trigger] svc.requires((f, b)),
        data@.len() <= u32::MAX,
    ensures
        exists|w: u32|
            #[trigger] svc.ensures((i2c_frame(address, data@.len() as u32), data), w) && e == error_from_code(w),
{
    let syscall = Syscall::I2cWrite { address, data: 0, len: data.len() as u32 };
    let w = svc(syscall.registers(), data);
    I2cError::from(w)
}

/// Sends the one byte `data` to the device at `address`.
pub fn write(svc: impl Fn(TrapFrame, &[u8]) -> u32, address: u8, data: u8) -> (e: I2cError)
    requires
        forall|f: TrapFrame, b: &[u8]| #[trigger] svc.requires((f, b)),
    ensures
        exists|w: u32, b: &[u8]|
            b@ == seq![data] && #[trigger] svc.ensures((i2c_frame(address, 1), b), w) && e == error_from_code(w),
{
    let buffer = [data];
    assert(buffer@ == seq![data]);
    write_buf(svc, address, buffer.as_slice())
}

/// Sends the UTF-8 bytes of `data` to the device at `address`.
pub fn write_str(svc: impl Fn(TrapFrame, &[u8]) -> u32, address: u8, data: &str) -> (e: I2cError)
    requires
        forall|f: TrapFrame, b: &[u8]| #[trigger] svc.requires((f, b)),
        data.spec_bytes().len() <= u32::MAX,
    ensures
        exists|w: u32, b: &[u8]|
            b@ == data.spec_bytes() && #[trigger] svc.ensures((i2c_frame(address, data.spec_bytes().len() as u32), b), w)
                && e == error_from_code(w),
{
    write_buf(svc, address, data.as_bytes())
}

/// Sends the character `data`, as one byte (its low 8 bits), to the device at `address`.
pub fn write_char(svc: impl Fn(TrapFrame, &[u8]) -> u32, address: u8, data: char) -> (e: I2cError)
    requires
        forall|f: TrapFrame, b: &[u8]| #[trigger] svc.requires((f, b)),
    ensures
        exists|w: u32, b: &[u8]|
            b@ == seq![data as u8] && #[trigger] svc.ensures((i2c_frame(address, 1), b), w) && e == error_from_code(w),
{
    write(svc, address, data as u8)
}

/// Sends the formatted text `text` to the print device; fails unless the
/// kernel reports success.
pub fn print(svc: impl Fn(TrapFrame, &[u8]) -> u32, text: &str) -> (r: Result<(), I2cError>)
    requires
        forall|f: TrapFrame, b: &[u8]| #[trigger] svc.requires((f, b)),
        text.spec_bytes().len() <= u32::MAX,
    ensures
        exists|w: u32, b: &[u8]|
            b@ == text.spec_bytes()
                && #[trigger] svc.ensures((i2c_frame(PRINT_ADDRESS, text.spec_bytes().len() as u32), b), w)
                && r == print_result(error_from_code(w)),
{
    let e = write_str(svc, PRINT_ADDRESS, text);
    match e {
        I2cError::Success => Ok(()),
        _ => Err(e),
    }
}

/// Sends the formatted text `text` and a newline to the print device; fails
/// unless the kernel reports success.
pub fn println(svc: impl Fn(TrapFrame, &[u8]) -> u32, text: &str) -> (r: Result<(), I2cError>)
    requires
        forall|f: TrapFrame, b: &[u8]| #[trigger] svc.requires((f, b)),
        text.spec_bytes().len() < u32::MAX,
    ensures
        exists|w: u32, b: &[u8]|
            b@ == text.spec_bytes().push(0x0Au8)
                && #[trigger] svc.ensures((i2c_frame(PRINT_ADDRESS, (text.spec_bytes().len() + 1) as u32), b), w)
                && r == print_result(error_from_code(w)),
{
    let bytes = text.as_bytes();
    let mut line: Vec<u8> = Vec::new();
    let mut i: usize = 0;
    while i < bytes.len()
        invariant
            i <= bytes@.len(),
            line@ == bytes@.subrange(0, i as int),
        decreases bytes@.len() - i,
    {
        line.push(bytes[i]);
        i = i + 1;
    }
    line.push(0x0A);
    assert(line@ == text.spec_bytes().push(0x0Au8)) by {
        assert(bytes@.subrange(0, bytes@.len() as int) == bytes@);
    }
    let e = write_buf(svc, PRINT_ADDRESS, line.as_slice());
    match e {
        I2cError::Success => Ok(()),
        _ => Err(e),
    }
}

} // verus!
