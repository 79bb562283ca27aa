use fenix::boards::bblack::peripherals::gpio::{GpioBank, Register as GpioController};
use fenix::interfaces::gpio as simple_gpio;
use fenix::kernel::peripherals::gpio as kernel_gpio;
use fenix::kernel::pinmux::{configure, set_pin_mode, PullResistor};
use fenix::peripherals::gpio::{self, GpioMode, GpioRegister};
use fenix::shared::gpio::GpioBank as KernelBank;
use fenix::sys::{read_addr, write_addr, RegisterFile};

const BANK1: u32 = 0x4804_C000;

#[test]
fn board_init_makes_the_leds_outputs() {
    let mut regs = RegisterFile::new();
    gpio::init(&mut regs);
    assert_eq!(read_addr(&regs, BANK1 + 0x134), 0xFE1F_FFFF);
    // the four bank clocks are on
    assert_eq!(read_addr(&regs, 0x44E0_00AC), 2);
    assert_eq!(read_addr(&regs, 0x44E0_00B0), 2);
    assert_eq!(read_addr(&regs, 0x44E0_00B4), 2);
    assert_eq!(read_addr(&regs, 0x44E0_0408), 2);
}

#[test]
fn board_pins() {
    let mut regs = RegisterFile::new();
    let controller = GpioController::new();
    controller.pin_mode(&mut regs, (3, GpioBank::Bank2), GpioMode::Input);
    assert_eq!(read_addr(&regs, 0x481A_C134), 1 << 3);
    controller.pin_mode(&mut regs, (3, GpioBank::Bank2), GpioMode::Output);
    assert_eq!(read_addr(&regs, 0x481A_C134), 0);
    gpio::write(&mut regs, (31, GpioBank::Bank0), true);
    assert_eq!(read_addr(&regs, 0x44E0_713C), 1 << 31);
    gpio::write(&mut regs, (31, GpioBank::Bank0), false);
    assert_eq!(read_addr(&regs, 0x44E0_713C), 0);
    write_addr(&mut regs, 0x481A_E138, 1 << 7);
    assert!(gpio::read(&regs, (7, GpioBank::Bank3)));
    assert!(!gpio::read(&regs, (6, GpioBank::Bank3)));
    gpio::pin_mode(&mut regs, (0, GpioBank::Bank1), GpioMode::Input);
    assert_eq!(read_addr(&regs, BANK1 + 0x134), 1);
    assert_eq!(GpioBank::Bank2.address(), 0x481A_C000);
}

#[test]
fn gpio1_pins() {
    let mut regs = RegisterFile::new();
    simple_gpio::pin_mode(&mut regs, 21, simple_gpio::GpioMode::Input);
    assert_eq!(read_addr(&regs, BANK1 + 0x134), 1 << 21);
    simple_gpio::write(&mut regs, 21, true);
    assert_eq!(read_addr(&regs, BANK1 + 0x13C), 1 << 21);
    write_addr(&mut regs, BANK1 + 0x138, 1 << 2);
    assert!(simple_gpio::read(&regs, 2));
    assert!(!simple_gpio::read(&regs, 3));
}

#[test]
fn gpio1_initialize() {
    let mut regs = RegisterFile::new();
    simple_gpio::initialize(&mut regs);
    assert_eq!(read_addr(&regs, 0x44E0_00AC), 2);
    assert_eq!(read_addr(&regs, 0x4820_0000 + 0x100 + 4 * 98), 0);
    assert_eq!(read_addr(&regs, 0x4820_0000 + 0xE4 + 4), 1 << 2);
}

#[test]
fn gpio1_interrupts() {
    let mut regs = RegisterFile::new();
    let mut table = simple_gpio::GpioHandlers::new();
    simple_gpio::enable_interrupt(&mut regs, &mut table, 5, simple_gpio::GpioInterrupt::Rising, 11);
    assert_eq!(read_addr(&regs, BANK1 + 0x34), 1 << 5);
    assert_eq!(read_addr(&regs, BANK1 + 0x148), 1 << 5);
    assert_eq!(table.handler(5), 11);
    write_addr(&mut regs, BANK1 + 0x24, (1 << 5) | (1 << 9));
    assert_eq!(simple_gpio::handle_interrupts(&regs, &table), (5, 11));
    simple_gpio::acknowledge(&mut regs, 5);
    assert_eq!(read_addr(&regs, BANK1 + 0x2C), 1 << 5);
}

#[test]
fn kernel_gpio() {
    let mut regs = RegisterFile::new();
    kernel_gpio::initialize(&mut regs);
    assert_eq!(read_addr(&regs, BANK1 + 0x134) & (0xF << 21), 0);
    kernel_gpio::pin_mode(&mut regs, (7, KernelBank::Gpio2), kernel_gpio::GpioMode::Input);
    assert_eq!(read_addr(&regs, 0x481A_C134), 1 << 7);
    kernel_gpio::write(&mut regs, (7, KernelBank::Gpio2), true);
    assert_eq!(read_addr(&regs, 0x481A_C13C), 1 << 7);
    write_addr(&mut regs, 0x481A_C138, 1 << 7);
    assert!(kernel_gpio::read(&regs, (7, KernelBank::Gpio2)));
    kernel_gpio::enable_interrupt(&mut regs, 3, kernel_gpio::GpioInterrupt::Change);
    assert_eq!(read_addr(&regs, BANK1 + 0x148), 1 << 3);
    assert_eq!(read_addr(&regs, BANK1 + 0x14C), 1 << 3);
    write_addr(&mut regs, BANK1 + 0x24, 0b1000);
    assert_eq!(kernel_gpio::pending_interrupt(&regs), 3);
    kernel_gpio::acknowledge_interrupt(&mut regs, 3);
    assert_eq!(read_addr(&regs, BANK1 + 0x2C), 0b1000);
}

#[test]
fn pad_configuration() {
    assert_eq!(PullResistor::PullUp.to_mask(), 0b10 << 3);
    assert_eq!(PullResistor::NoPull.to_mask(), 0b01 << 3);
    assert_eq!(PullResistor::PullDown.to_mask(), 0);
    let mut regs = RegisterFile::new();
    set_pin_mode(&mut regs, 0x878, 7, true, PullResistor::PullDown);
    assert_eq!(read_addr(&regs, 0x44E1_0878), 7 | (1 << 5));
    configure(&mut regs);
    assert_eq!(read_addr(&regs, 0x44E1_0840), 7 | (1 << 5));
    assert_eq!(read_addr(&regs, 0x44E1_084C), 7 | (1 << 5));
}
