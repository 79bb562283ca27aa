use fenix::sys::{clear_bit, noop, read_addr, read_bit, set_bit, with_bit_cleared, with_bit_set, write_addr, write_or, RegisterFile};
use fenix::utils::{nop, rbit, rreg, wbit, wreg};

#[test]
fn fresh_registers_read_zero() {
    let regs = RegisterFile::new();
    assert_eq!(regs.read(0x4804_C13C), 0);
    assert_eq!(read_addr(&regs, 0), 0);
}

#[test]
fn write_then_read_gives_value() {
    let mut regs = RegisterFile::new();
    write_addr(&mut regs, 0x100, 0xDEAD_BEEF);
    assert_eq!(read_addr(&regs, 0x100), 0xDEAD_BEEF);
    assert_eq!(read_addr(&regs, 0x104), 0);
    wreg(&mut regs, 0x100, 7);
    assert_eq!(rreg(&regs, 0x100), 7);
}

#[test]
fn set_bit_then_read_bit() {
    let mut regs = RegisterFile::new();
    write_addr(&mut regs, 0x20, 0b1000);
    set_bit(&mut regs, 0x20, 1);
    assert_eq!(read_addr(&regs, 0x20), 0b1010);
    assert!(read_bit(&regs, 0x20, 1));
    assert!(read_bit(&regs, 0x20, 3));
    assert!(!read_bit(&regs, 0x20, 0));
}

#[test]
fn clear_bit_then_read_bit() {
    let mut regs = RegisterFile::new();
    write_addr(&mut regs, 0x20, 0xFFFF_FFFF);
    clear_bit(&mut regs, 0x20, 31);
    assert_eq!(read_addr(&regs, 0x20), 0x7FFF_FFFF);
    assert!(!read_bit(&regs, 0x20, 31));
    assert!(read_bit(&regs, 0x20, 30));
}

#[test]
fn wbit_and_rbit() {
    let mut regs = RegisterFile::new();
    wbit(&mut regs, 0x40, 5, true);
    assert_eq!(rreg(&regs, 0x40), 1 << 5);
    assert!(rbit(&regs, 0x40, 5));
    wbit(&mut regs, 0x40, 5, false);
    assert_eq!(rreg(&regs, 0x40), 0);
    assert!(!rbit(&regs, 0x40, 5));
}

#[test]
fn bit_helpers() {
    assert_eq!(with_bit_set(0, 0), 1);
    assert_eq!(with_bit_set(0x8000_0000, 31), 0x8000_0000);
    assert_eq!(with_bit_cleared(0xFF, 7), 0x7F);
    assert_eq!(with_bit_cleared(0, 4), 0);
}

#[test]
fn write_or_keeps_bits() {
    let mut regs = RegisterFile::new();
    write_addr(&mut regs, 0x8, 0x10);
    write_or(&mut regs, 0x8, 0x3);
    assert_eq!(read_addr(&regs, 0x8), 0x13);
}

#[test]
fn nothing_happens() {
    noop();
    nop();
}

#[test]
fn queued_values_are_taken_in_order() {
    let mut regs = RegisterFile::new();
    regs.write(0x100, 7);
    regs.feed(0x100, 1);
    regs.feed(0x100, 2);
    regs.feed(0x200, 9);
    assert_eq!(regs.receive(0x100), 1);
    assert_eq!(regs.receive(0x100), 2);
    // nothing queued any more: the register itself is read
    assert_eq!(regs.receive(0x100), 7);
    assert_eq!(regs.read(0x100), 7);
    assert_eq!(regs.receive(0x200), 9);
}
