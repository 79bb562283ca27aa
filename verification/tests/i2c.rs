use fenix::kernel::peripherals::i2c::{
    next_write, I2cMode, I2cModule, TransactionAction, TransactionEvent, I2C as KernelI2c, I2C2_BASE,
};
use fenix::peripherals::i2c::{ClockSpeed, I2CModule, I2CModules, Mode, TestMode, I2C};
use fenix::shared::i2c::I2cError;
use fenix::sys::{read_addr, write_addr, RegisterFile};

#[test]
fn transaction_sends_the_bytes() {
    let mut regs = RegisterFile::new();
    let mut i2c = KernelI2c::new(I2cModule::I2C2);
    i2c.begin_transaction(&mut regs, 0x10, I2cMode::Transmitter);
    assert_eq!(read_addr(&regs, I2C2_BASE + 0xAC), 0x10);
    let started = i2c.queue_write(&mut regs, &[1, 2, 3], false);
    assert!(started);
    assert_eq!(read_addr(&regs, I2C2_BASE + 0x98), 3);
    assert!(!i2c.ready);
    // the controller asks for data
    write_addr(&mut regs, I2C2_BASE + 0x28, 1 << 4);
    i2c.irq_handler(&mut regs);
    assert_eq!(i2c.transmit_index, 3);
    assert_eq!(read_addr(&regs, I2C2_BASE + 0x9C), 3);
    // the transfer is done
    write_addr(&mut regs, I2C2_BASE + 0x28, 1 << 2);
    i2c.irq_handler(&mut regs);
    assert!(i2c.ready);
    assert_eq!(i2c.finish_write(&mut regs), None);
    i2c.end_transaction(&mut regs);
}

#[test]
fn empty_write_changes_nothing() {
    let mut regs = RegisterFile::new();
    let mut i2c = KernelI2c::new(I2cModule::I2C2);
    let started = i2c.queue_write(&mut regs, &[], false);
    assert!(!started);
    assert!(i2c.ready);
    assert_eq!(read_addr(&regs, I2C2_BASE + 0x98), 0);
}

#[test]
fn missing_acknowledge_is_reported() {
    let mut regs = RegisterFile::new();
    let mut i2c = KernelI2c::new(I2cModule::I2C2);
    i2c.begin_transaction(&mut regs, 0x22, I2cMode::Transmitter);
    i2c.queue_write(&mut regs, &[9], false);
    write_addr(&mut regs, I2C2_BASE + 0x28, 1 << 1);
    i2c.irq_handler(&mut regs);
    assert!(i2c.ready);
    assert_eq!(i2c.finish_write(&mut regs), Some(I2cError::Nack));
    assert_eq!(i2c.error, None);
}

#[test]
fn controller_setup() {
    let mut regs = RegisterFile::new();
    let i2c = I2C::new(&mut regs, I2CModule::I2C1, ClockSpeed::Normal, Mode::MasterTransmit);
    let base = 0x4802_A000;
    assert_eq!(read_addr(&regs, base + 0xB0), 3);
    assert_eq!(read_addr(&regs, base + 0xB4), 53);
    assert_eq!(read_addr(&regs, base + 0xB8), 55);
    assert_eq!(read_addr(&regs, base + 0xA4), (1 << 15) | (1 << 10) | (1 << 9));
    assert_eq!(read_addr(&regs, base + 0x10), 0b10);
    assert!(!i2c.reset_done(&regs));
    write_addr(&mut regs, base + 0x90, 1);
    assert!(i2c.reset_done(&regs));
    let fast = I2C::new(&mut regs, I2CModule::I2C0, ClockSpeed::Fast, Mode::MasterReceive);
    assert_eq!(read_addr(&regs, 0x44E0_B000 + 0xB4), 8);
    assert_eq!(read_addr(&regs, 0x44E0_B000 + 0xB8), 10);
    assert!(!fast.bus_busy(&regs));
}

#[test]
fn controller_begin_and_tests() {
    let mut regs = RegisterFile::new();
    let i2c = I2C::new(&mut regs, I2CModule::I2C2, ClockSpeed::Normal, Mode::SlaveTransmit);
    let base = 0x4819_C000;
    i2c.begin(&mut regs);
    assert_eq!(read_addr(&regs, base + 0xA4) & 0x3, 0x3);
    i2c.start_testing(&mut regs, TestMode::LoopBack);
    assert_eq!(read_addr(&regs, base + 0xBC), (1 << 15) | (3 << 12));
    // SCL reads low: the LED on GPIO1_23 goes on
    i2c.check_scl(&mut regs);
    assert_eq!(read_addr(&regs, 0x4804_C13C), 1 << 23);
}

#[test]
fn scl_high_leaves_the_led() {
    let mut regs = RegisterFile::new();
    let i2c = I2C::new(&mut regs, I2CModule::I2C2, ClockSpeed::Normal, Mode::SlaveTransmit);
    write_addr(&mut regs, 0x4819_C000 + 0xBC, 1 << 7);
    i2c.check_scl(&mut regs);
    assert_eq!(read_addr(&regs, 0x4804_C13C), 0);
}

#[test]
fn controller_registry() {
    let mut regs = RegisterFile::new();
    let mut modules = I2CModules::new();
    assert!(modules.get_i2c_module(I2CModule::I2C0).is_none());
    modules.register_i2c_module(&mut regs, I2CModule::I2C0, Mode::MasterTransmit);
    let i2c = modules.get_i2c_module(I2CModule::I2C0);
    assert!(i2c.is_some());
    assert!(modules.get_i2c_module(I2CModule::I2C0).is_none());
    modules.put_back(i2c.unwrap());
    assert!(modules.get_i2c_module(I2CModule::I2C0).is_some());
}

#[test]
fn module_numbers() {
    assert_eq!(I2CModule::I2C0.index(), 0);
    assert_eq!(I2CModule::I2C2.index(), 2);
    assert_eq!(I2CModule::I2C1.interrupt().number, 71);
    assert_eq!(I2CModule::I2C2.address(), 0x4819_C000);
}

#[test]
fn write_transaction_steps() {
    let lengths = [0usize, 3, 0, 2];
    assert!(next_write(&lengths, 0, TransactionEvent::BusFree) == TransactionAction::Queue(1));
    assert!(next_write(&lengths, 2, TransactionEvent::Written(None)) == TransactionAction::Queue(3));
    assert!(next_write(&lengths, 4, TransactionEvent::Written(None)) == TransactionAction::End);
    assert!(next_write(&lengths, 2, TransactionEvent::Written(Some(I2cError::Nack))) == TransactionAction::Fail(I2cError::Nack));
    assert!(next_write(&[], 0, TransactionEvent::BusFree) == TransactionAction::End);
    assert!(next_write(&[0, 0], 0, TransactionEvent::BusFree) == TransactionAction::End);
}

#[test]
fn received_bytes_come_from_the_queue_in_order() {
    let mut regs = RegisterFile::new();
    let mut i2c = KernelI2c::new(I2cModule::I2C2);
    for b in 1u32..=20 {
        regs.feed(I2C2_BASE + 0x9C, b);
    }
    // receive threshold reached: sixteen bytes are taken, oldest first
    write_addr(&mut regs, I2C2_BASE + 0x28, 1 << 3);
    i2c.irq_handler(&mut regs);
    assert_eq!(i2c.receive_buffer.len(), 16);
    for k in 0..16usize {
        assert_eq!(i2c.receive_buffer.get(k), Some(&(k as u8 + 1)));
    }
    // draining: the status says two bytes wait
    write_addr(&mut regs, I2C2_BASE + 0xC0, 2 << 8);
    write_addr(&mut regs, I2C2_BASE + 0x28, 1 << 13);
    i2c.irq_handler(&mut regs);
    assert_eq!(i2c.receive_buffer.len(), 18);
    for k in 0..18usize {
        assert_eq!(i2c.receive_buffer.get(k), Some(&(k as u8 + 1)));
    }
    assert_eq!(regs.receive(I2C2_BASE + 0x9C), 19);
}

#[test]
fn draining_sends_what_the_fifo_takes() {
    let mut regs = RegisterFile::new();
    let mut i2c = KernelI2c::new(I2cModule::I2C2);
    i2c.begin_transaction(&mut regs, 0x10, I2cMode::Transmitter);
    i2c.queue_write(&mut regs, &[7, 8, 9], false);
    write_addr(&mut regs, I2C2_BASE + 0xC0, 2);
    write_addr(&mut regs, I2C2_BASE + 0x28, 1 << 14);
    i2c.irq_handler(&mut regs);
    assert_eq!(i2c.transmit_index, 2);
    assert_eq!(read_addr(&regs, I2C2_BASE + 0x9C), 8);
    assert_eq!(read_addr(&regs, I2C2_BASE + 0x28), 1 << 14);
}
