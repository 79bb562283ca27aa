use vstd::prelude::*;
use crate::sys::{
    RegisterFile, after_read, bit_of, clear_bit, next_in, read_addr, receive_addr, set_bit, write_addr, writes_to,
};
use crate::shared::i2c::I2cError;
use crate::memory::vec::Vec;
use crate::internals::clock::{self, FuncClock, CLOCK_ENABLE};
use crate::interrupts::{self, Mode, level_word, INTC_ILR};
use crate::kernel::peripherals::gpio::{bit_set, bit_cleared};

verus! {

broadcast use crate::sys::lemma_writes_to_push;

/// Functional clock of the module, in Hz.
pub const SYS_CLOCK: u32 = 48_000_000;
/// Internal clock after the prescaler, in Hz.
pub const INTERNAL_CLOCK: u32 = 12_000_000;
/// Bus clock, in Hz.
pub const OUTPUT_CLOCK: u32 = 100_000;

pub const I2C_SYSC: u32 = 0x10;
pub const I2C_IRQSTATUS_RAW: u32 = 0x24;
pub const I2C_IRQSTATUS: u32 = 0x28;
pub const I2C_IRQSTATUS_SET: u32 = 0x2C;
pub const I2C_IRQSTATUS_CLR: u32 = 0x30;
pub const I2C_CNT: u32 = 0x98;
pub const I2C_DATA: u32 = 0x9C;
pub const I2C_CON: u32 = 0xA4;
pub const I2C_OA: u32 = 0xA8;
pub const I2C_SA: u32 = 0xAC;
pub const I2C_PSC: u32 = 0xB0;
pub const I2C_SCLL: u32 = 0xB4;
pub const I2C_SCLH: u32 = 0xB8;
pub const I2C_SYSTEST: u32 = 0xBC;
pub const I2C_SYSS: u32 = 0x90;
pub const I2C_BUF: u32 = 0x94;
pub const I2C_BUFSTAT: u32 = 0xC0;

/// FIFO threshold for reception.
pub const RECEIVE_THRESHOLD: u32 = 16;
/// FIFO threshold for transmission.
pub const TRANSMIT_THRESHOLD: u32 = 16;
/// System-test enable bit.
pub const TEST_ENABLE: u32 = 1 << 15;
/// Position of the test-mode field.
pub const TEST_MODE: u32 = 12;
/// Interrupt line of the I2C2 module.
pub const I2C2INT: u32 = 30;

/// The I2C modules the kernel drives.
#[derive(Clone, Copy, PartialEq, Eq, Structural)]
pub enum I2cModule {
    I2C2,
}

/// Base address of the I2C2 module.
pub const I2C2_BASE: u32 = 0x4819_C000;

/// Direction of a transfer.
#[derive(Clone, Copy, PartialEq, Eq, Structural)]
pub enum I2cMode {
    Transmitter,
    Receiver,
}

/// The interrupt events of the module.
#[derive(Clone, Copy, PartialEq, Eq, Structural)]
pub enum I2cInterrupt {
    /// Transmit draining.
    XDR,
    /// Receive draining.
    RDR,
    /// Transmit ready.
    XRDY,
    /// Receive ready.
    RRDY,
    /// Access ready: the transfer is over.
    ARDY,
    /// No acknowledge.
    NACK,
}

impl I2cInterrupt {
    /// The event's bit in the status and enable registers.
    pub open spec fn mask_spec(self) -> u32 {
        match self {
            I2cInterrupt::XDR => 1u32 << 14,
            I2cInterrupt::RDR => 1u32 << 13,
            I2cInterrupt::XRDY => 1u32 << 4,
            I2cInterrupt::RRDY => 1u32 << 3,
            I2cInterrupt::ARDY => 1u32 << 2,
            I2cInterrupt::NACK => 1u32 << 1,
        }
    }

    /// The event's bit in the status and enable registers.
    pub fn mask(&self) -> (m: u32)
        ensures
            m == self.mask_spec(),
    {
        match self {
            I2cInterrupt::XDR => 1u32 << 14,
            I2cInterrupt::RDR => 1u32 << 13,
            I2cInterrupt::XRDY => 1u32 << 4,
            I2cInterrupt::RRDY => 1u32 << 3,
            I2cInterrupt::ARDY => 1u32 << 2,
            I2cInterrupt::NACK => 1u32 << 1,
        }
    }
}

/// The events that matter in each direction.
pub open spec fn mode_interrupts(mode: I2cMode) -> Seq<I2cInterrupt> {
    match mode {
        I2cMode::Transmitter => seq![I2cInterrupt::XRDY, I2cInterrupt::XDR, I2cInterrupt::ARDY, I2cInterrupt::NACK],
        I2cMode::Receiver => seq![I2cInterrupt::RRDY, I2cInterrupt::RDR, I2cInterrupt::ARDY, I2cInterrupt::NACK],
    }
}

/// The union of the bits of the events of `mode`.
pub open spec fn mode_mask(mode: I2cMode) -> u32 {
    let s = mode_interrupts(mode);
    s[0].mask_spec() | s[1].mask_spec() | s[2].mask_spec() | s[3].mask_spec()
}

impl I2cMode {
    /// The events that matter in this direction: ready, draining, access
    /// ready and no-acknowledge.
    pub fn interrupts(&self) -> (r: [I2cInterrupt; 4])
        ensures
            r@ == mode_interrupts(*self),
    {
        let r = match self {
            I2cMode::Transmitter => [I2cInterrupt::XRDY, I2cInterrupt::XDR, I2cInterrupt::ARDY, I2cInterrupt::NACK],
            I2cMode::Receiver => [I2cInterrupt::RRDY, I2cInterrupt::RDR, I2cInterrupt::ARDY, I2cInterrupt::NACK],
        };
        assert(r@ =~= mode_interrupts(*self));
        r
    }
}

/// The address of register `offset` of the I2C2 module.
pub open spec fn i2c_reg(offset: u32) -> u32 {
    (I2C2_BASE + offset) as u32
}

/// An I2C controller and the state of its interrupt-driven transfers.
pub struct I2C {
    pub module: I2cModule,
    /// The last transfer is over.
    pub ready: bool,
    /// The error the last transfer ended with, if any.
    pub error: Option<I2cError>,
    pub receive_buffer: Vec<u8>,
    pub transmit_buffer: Vec<u8>,
    /// How many bytes of the transmit buffer went out.
    pub transmit_index: usize,
}

/// `m` with `mask` ORed into the register at `address`.
pub open spec fn or_into(m: Map<u32, u32>, address: u32, mask: u32) -> Map<u32, u32> {
    m.insert(address, m[address] | mask)
}

impl I2C {
    /// The transmit buffer is well formed and the bytes sent are a prefix of it.
    pub open spec fn wf(&self) -> bool {
        &&& self.transmit_index <= self.transmit_buffer@.len()
    }

    /// An idle controller: ready, no error, empty buffers.
    pub fn new(module: I2cModule) -> (i2c: Self)
        ensures
            i2c.wf(),
            i2c.module == module,
            i2c.ready,
            i2c.error is None,
            i2c.receive_buffer@ == Seq::<u8>::empty(),
            i2c.transmit_buffer@ == Seq::<u8>::empty(),
            i2c.transmit_index == 0,
    {
        I2C {
            module,
            ready: true,
            error: None,
            receive_buffer: Vec::new(),
            transmit_buffer: Vec::new(),
            transmit_index: 0,
        }
    }

    /// The module's base address.
    pub fn base(&self) -> (b: u32)
        ensures
            b == I2C2_BASE,
    {
        match self.module {
            I2cModule::I2C2 => I2C2_BASE,
        }
    }

    /// Requests a soft reset of the module.
    pub fn soft_reset(&self, regs: &mut RegisterFile)
        ensures
            final(regs)@ == or_into(old(regs)@, i2c_reg(I2C_SYSC), 0x2),
    {
        let value = read_addr(regs, self.base() + I2C_SYSC);
        write_addr(regs, self.base() + I2C_SYSC, value | 0x2);
    }

    /// Sets the prescaler for a 12 MHz internal clock and the SCL low and high
    /// times for a 100 kHz bus.
    pub fn init_clocks(&self, regs: &mut RegisterFile)
        ensures
            final(regs)@ == old(regs)@
                .insert(i2c_reg(I2C_PSC), 3)
                .insert(i2c_reg(I2C_SCLL), 53)
                .insert(i2c_reg(I2C_SCLH), 55),
    {
        let prescaler = (SYS_CLOCK / INTERNAL_CLOCK) - 1;
        write_addr(regs, self.base() + I2C_PSC, prescaler);
        let mut divider = INTERNAL_CLOCK / OUTPUT_CLOCK;
        divider /= 2;
        write_addr(regs, self.base() + I2C_SCLL, divider - 7);
        write_addr(regs, self.base() + I2C_SCLH, divider - 5);
    }

    /// Sets the module's own address to 0x50.
    pub fn set_own_address(&self, regs: &mut RegisterFile)
        ensures
            final(regs)@ == old(regs)@.insert(i2c_reg(I2C_OA), 0x50),
    {
        write_addr(regs, self.base() + I2C_OA, 0x50);
    }

    /// Enables the module (bit 15 of the control register).
    pub fn enable(&self, regs: &mut RegisterFile)
        ensures
            final(regs)@ == bit_set(old(regs)@, i2c_reg(I2C_CON), 15),
            sent_data(final(regs).writes()) == sent_data(old(regs).writes()),
    {
        set_bit(regs, self.base() + I2C_CON, 15);
    }

    /// Disables the module.
    pub fn disable(&self, regs: &mut RegisterFile)
        ensures
            final(regs)@ == bit_cleared(old(regs)@, i2c_reg(I2C_CON), 15),
            sent_data(final(regs).writes()) == sent_data(old(regs).writes()),
    {
        clear_bit(regs, self.base() + I2C_CON, 15);
    }

    /// Whether the reset is over (bit 0 of the status register).
    pub fn reset_done(&self, regs: &RegisterFile) -> (done: bool)
        ensures
            done == (regs@[i2c_reg(I2C_SYSS)] & 0x1 != 0),
    {
        read_addr(regs, self.base() + I2C_SYSS) & 0x1 != 0
    }

    /// Makes the module a master (bit 10) and, in transmitter mode, a transmitter (bit 9).
    pub fn set_mode(&self, regs: &mut RegisterFile, mode: I2cMode)
        ensures
            final(regs)@ == or_into(
                old(regs)@,
                i2c_reg(I2C_CON),
                (1u32 << 10) | ((if mode == I2cMode::Transmitter { 1u32 } else { 0u32 }) << 9),
            ),
            sent_data(final(regs).writes()) == sent_data(old(regs).writes()),
    {
        let value = read_addr(regs, self.base() + I2C_CON);
        let is_transmitter: u32 = match mode {
            I2cMode::Transmitter => 1,
            I2cMode::Receiver => 0,
        };
        write_addr(regs, self.base() + I2C_CON, value | 1u32 << 10 | is_transmitter << 9);
        assert((value | 1u32 << 10 | is_transmitter << 9) == (value | ((1u32 << 10) | (is_transmitter << 9)))) by (bit_vector);
    }

    /// Sets both FIFO thresholds.
    pub fn setup_threshold(&self, regs: &mut RegisterFile)
        ensures
            final(regs)@ == old(regs)@.insert(i2c_reg(I2C_BUF), 0x0F0F),
    {
        write_addr(regs, self.base() + I2C_BUF, (RECEIVE_THRESHOLD - 1) << 8 | (TRANSMIT_THRESHOLD - 1));
        assert((15u32 << 8 | 15u32) == 0x0F0Fu32) by (bit_vector);
    }

    /// Enables event `irq`.
    pub fn enable_irq(&self, regs: &mut RegisterFile, irq: I2cInterrupt)
        ensures
            final(regs)@ == or_into(old(regs)@, i2c_reg(I2C_IRQSTATUS_SET), irq.mask_spec()),
            sent_data(final(regs).writes()) == sent_data(old(regs).writes()),
    {
        let value = read_addr(regs, self.base() + I2C_IRQSTATUS_SET);
        write_addr(regs, self.base() + I2C_IRQSTATUS_SET, value | irq.mask());
    }

    /// Disables event `irq`.
    pub fn disable_irq(&self, regs: &mut RegisterFile, irq: I2cInterrupt)
        ensures
            final(regs)@ == or_into(old(regs)@, i2c_reg(I2C_IRQSTATUS_CLR), irq.mask_spec()),
            sent_data(final(regs).writes()) == sent_data(old(regs).writes()),
    {
        let value = read_addr(regs, self.base() + I2C_IRQSTATUS_CLR);
        write_addr(regs, self.base() + I2C_IRQSTATUS_CLR, value | irq.mask());
    }

    /// Puts the module in loop-back test mode.
    pub fn enable_test_mode(&self, regs: &mut RegisterFile)
        ensures
            final(regs)@ == or_into(old(regs)@, i2c_reg(I2C_SYSTEST), TEST_ENABLE | (0x3u32 << TEST_MODE)),
    {
        let value = read_addr(regs, self.base() + I2C_SYSTEST);
        write_addr(regs, self.base() + I2C_SYSTEST, value | TEST_ENABLE | (0x3u32 << TEST_MODE));
        assert((value | TEST_ENABLE | (0x3u32 << TEST_MODE)) == (value | (TEST_ENABLE | (0x3u32 << TEST_MODE)))) by (bit_vector);
    }

    /// Empties the transmit buffer and the transmit FIFO.
    pub fn clear_buffer(&mut self, regs: &mut RegisterFile)
        requires
            old(self).wf(),
        ensures
            final(self).wf(),
            final(self).transmit_buffer@ == Seq::<u8>::empty(),
            final(self).transmit_index == 0,
            final(self).receive_buffer == old(self).receive_buffer,
            final(self).module == old(self).module,
            final(self).ready == old(self).ready,
            final(self).error == old(self).error,
            final(regs)@ == bit_set(old(regs)@, i2c_reg(I2C_BUF), 6),
            sent_data(final(regs).writes()) == sent_data(old(regs).writes()),
    {
        self.transmit_buffer.clear();
        self.transmit_index = 0;
        self.clear_transmit_fifo(regs);
    }

    /// Enables every event of `mode`.
    pub fn enable_interrupts(&self, regs: &mut RegisterFile, mode: I2cMode)
        ensures
            final(regs)@ == or_into(old(regs)@, i2c_reg(I2C_IRQSTATUS_SET), mode_mask(mode)),
            sent_data(final(regs).writes()) == sent_data(old(regs).writes()),
    {
        let interrupts = mode.interrupts();
        let ghost start = regs@;
        let ghost a = i2c_reg(I2C_IRQSTATUS_SET);
        proof {
            regs.lemma_total();
            let v = start[a];
            assert(v | 0u32 == v) by (bit_vector);
            assert(start.insert(a, start[a] | partial_mask(interrupts@, 0)) =~= start);
        }
        let mut i: usize = 0;
        while i < 4
            invariant
                i <= 4,
                interrupts@ == mode_interrupts(mode),
                a == i2c_reg(I2C_IRQSTATUS_SET),
                regs@ == start.insert(a, start[a] | partial_mask(interrupts@, i as int)),
                sent_data(regs.writes()) == sent_data(old(regs).writes()),
            decreases 4 - i,
        {
            let ghost before = regs@;
            self.enable_irq(regs, interrupts[i]);
            proof {
                let v = start[a];
                let p = partial_mask(interrupts@, i as int);
                let m = interrupts@[i as int].mask_spec();
                assert((v | p) | m == v | (p | m)) by (bit_vector);
                assert(regs@ =~= start.insert(a, start[a] | partial_mask(interrupts@, i + 1)));
            }
            i += 1;
        }
        assert(partial_mask(interrupts@, 4) == mode_mask(mode)) by {
            reveal_with_fuel(partial_mask, 5);
            let s = interrupts@;
            let (m0, m1, m2, m3) = (s[0].mask_spec(), s[1].mask_spec(), s[2].mask_spec(), s[3].mask_spec());
            assert(((((0u32 | m0) | m1) | m2) | m3) == (m0 | m1 | m2 | m3)) by (bit_vector);
        }
    }

    /// Disables every event of `mode`.
    pub fn disable_interrupts(&self, regs: &mut RegisterFile, mode: I2cMode)
        ensures
            final(regs)@ == or_into(old(regs)@, i2c_reg(I2C_IRQSTATUS_CLR), mode_mask(mode)),
            sent_data(final(regs).writes()) == sent_data(old(regs).writes()),
    {
        let interrupts = mode.interrupts();
        let ghost start = regs@;
        let ghost a = i2c_reg(I2C_IRQSTATUS_CLR);
        proof {
            regs.lemma_total();
            let v = start[a];
            assert(v | 0u32 == v) by (bit_vector);
            assert(start.insert(a, start[a] | partial_mask(interrupts@, 0)) =~= start);
        }
        let mut i: usize = 0;
        while i < 4
            invariant
                i <= 4,
                interrupts@ == mode_interrupts(mode),
                a == i2c_reg(I2C_IRQSTATUS_CLR),
                regs@ == start.insert(a, start[a] | partial_mask(interrupts@, i as int)),
                sent_data(regs.writes()) == sent_data(old(regs).writes()),
            decreases 4 - i,
        {
            self.disable_irq(regs, interrupts[i]);
            proof {
                let v = start[a];
                let p = partial_mask(interrupts@, i as int);
                let m = interrupts@[i as int].mask_spec();
                assert((v | p) | m == v | (p | m)) by (bit_vector);
                assert(regs@ =~= start.insert(a, start[a] | partial_mask(interrupts@, i + 1)));
            }
            i += 1;
        }
        assert(partial_mask(interrupts@, 4) == mode_mask(mode)) by {
            reveal_with_fuel(partial_mask, 5);
            let s = interrupts@;
            let (m0, m1, m2, m3) = (s[0].mask_spec(), s[1].mask_spec(), s[2].mask_spec(), s[3].mask_spec());
            assert(((((0u32 | m0) | m1) | m2) | m3) == (m0 | m1 | m2 | m3)) by (bit_vector);
        }
    }

    /// Addresses the slave `address`.
    pub fn set_slave(&self, regs: &mut RegisterFile, address: u8)
        ensures
            final(regs)@ == old(regs)@.insert(i2c_reg(I2C_SA), address as u32),
            sent_data(final(regs).writes()) == sent_data(old(regs).writes()),
    {
        write_addr(regs, self.base() + I2C_SA, address as u32);
    }

    /// Sets the number of bytes of the transfer.
    pub fn set_count(&self, regs: &mut RegisterFile, count: u32)
        ensures
            final(regs)@ == old(regs)@.insert(i2c_reg(I2C_CNT), count),
            sent_data(final(regs).writes()) == sent_data(old(regs).writes()),
    {
        write_addr(regs, self.base() + I2C_CNT, count);
    }

    /// Empties the transmit FIFO (bit 6 of the buffer register).
    pub fn clear_transmit_fifo(&self, regs: &mut RegisterFile)
        ensures
            final(regs)@ == bit_set(old(regs)@, i2c_reg(I2C_BUF), 6),
            sent_data(final(regs).writes()) == sent_data(old(regs).writes()),
    {
        set_bit(regs, self.base() + I2C_BUF, 6);
    }

    /// Whether the bus is busy (bit 12 of the raw status).
    pub fn busy(&self, regs: &RegisterFile) -> (b: bool)
        ensures
            b == (regs@[i2c_reg(I2C_IRQSTATUS_RAW)] & (1u32 << 12) != 0),
    {
        let value = read_addr(regs, self.base() + I2C_IRQSTATUS_RAW);
        value & (1u32 << 12) != 0
    }

    /// Puts a start condition on the bus.
    pub fn start(&self, regs: &mut RegisterFile)
        ensures
            final(regs)@ == or_into(old(regs)@, i2c_reg(I2C_CON), 0x1),
            sent_data(final(regs).writes()) == sent_data(old(regs).writes()),
    {
        let value = read_addr(regs, self.base() + I2C_CON);
        write_addr(regs, self.base() + I2C_CON, value | 0x1);
    }

    /// Puts a stop condition on the bus.
    pub fn stop(&mut self, regs: &mut RegisterFile)
        ensures
            final(regs)@ == or_into(old(regs)@, i2c_reg(I2C_CON), 0x2),
            *final(self) == *old(self),
            sent_data(final(regs).writes()) == sent_data(old(regs).writes()),
    {
        let value = read_addr(regs, self.base() + I2C_CON);
        write_addr(regs, self.base() + I2C_CON, value | 0x2);
    }

    /// Sends the next byte of the transmit buffer.
    pub fn write_data(&mut self, regs: &mut RegisterFile)
        requires
            old(self).wf(),
            old(self).transmit_index < old(self).transmit_buffer@.len(),
        ensures
            final(self).wf(),
            final(regs)@ == old(regs)@.insert(
                i2c_reg(I2C_DATA),
                old(self).transmit_buffer@[old(self).transmit_index as int] as u32,
            ),
            final(regs).writes() == old(regs).writes().push(
                (i2c_reg(I2C_DATA), old(self).transmit_buffer@[old(self).transmit_index as int] as u32),
            ),
            forall|a: u32| #[trigger] final(regs).queue(a) == old(regs).queue(a),
            final(self).transmit_index == old(self).transmit_index + 1,
            final(self).transmit_buffer == old(self).transmit_buffer,
            final(self).receive_buffer == old(self).receive_buffer,
            final(self).module == old(self).module,
            final(self).ready == old(self).ready,
            final(self).error == old(self).error,
    {
        let _len = self.transmit_buffer.len();
        let data = match self.transmit_buffer.get(self.transmit_index) {
            Some(d) => *d,
            None => 0,
        };
        write_addr(regs, self.base() + I2C_DATA, data as u32);
        self.transmit_index += 1;
    }

    /// Takes the next received byte (the low byte of what the data register
    /// gives) into the receive buffer.
    pub fn read_data(&mut self, regs: &mut RegisterFile)
        requires
            old(self).wf(),
        ensures
            final(self).wf(),
            final(regs)@ == old(regs)@,
            final(regs).writes() == old(regs).writes(),
            final(regs).queue(i2c_reg(I2C_DATA)) == after_read(old(regs).queue(i2c_reg(I2C_DATA))),
            forall|a: u32| a != i2c_reg(I2C_DATA) ==> #[trigger] final(regs).queue(a) == old(regs).queue(a),
            final(self).receive_buffer@ == old(self).receive_buffer@.push(
                next_in(old(regs).queue(i2c_reg(I2C_DATA)), old(regs)@[i2c_reg(I2C_DATA)]) as u8,
            ),
            final(self).transmit_index == old(self).transmit_index,
            final(self).transmit_buffer == old(self).transmit_buffer,
            final(self).module == old(self).module,
            final(self).ready == old(self).ready,
            final(self).error == old(self).error,
    {
        let data = receive_addr(regs, self.base() + I2C_DATA) as u8;
        self.receive_buffer.push(data);
    }

    /// How many bytes the transmit FIFO can take (low 6 bits of the buffer status).
    pub fn transmit_bytes_available(&self, regs: &RegisterFile) -> (n: u32)
        ensures
            n == regs@[i2c_reg(I2C_BUFSTAT)] & 0x3F,
    {
        read_addr(regs, self.base() + I2C_BUFSTAT) & 0x3F
    }

    /// How many bytes of the transmit buffer are still to go.
    pub fn transmit_bytes_left(&self) -> (n: u32)
        requires
            self.wf(),
            self.transmit_buffer@.len() <= u32::MAX,
        ensures
            n == self.transmit_buffer@.len() - self.transmit_index,
    {
        self.transmit_buffer.len() as u32 - self.transmit_index as u32
    }

    /// How many received bytes wait in the FIFO (bits 8 to 13 of the buffer status).
    pub fn receive_bytes_available(&self, regs: &RegisterFile) -> (n: u32)
        ensures
            n == (regs@[i2c_reg(I2C_BUFSTAT)] >> 8) & 0x3F,
    {
        (read_addr(regs, self.base() + I2C_BUFSTAT) >> 8) & 0x3F
    }

    /// Sends the next `n` bytes of the transmit buffer.
    pub fn send_bytes(&mut self, regs: &mut RegisterFile, n: u32)
        requires
            old(self).wf(),
            old(self).transmit_index + n <= old(self).transmit_buffer@.len(),
        ensures
            final(self).wf(),
            i2c_state(*final(self), *old(self), old(self).transmit_index + n, old(self).receive_buffer@, old(self).ready, old(self).error),
            final(regs)@ == after_sending(old(regs)@, old(self).transmit_buffer@, old(self).transmit_index as int, n as int),
            sent_data(final(regs).writes()) == sent_data(old(regs).writes()) + as_words(
                old(self).transmit_buffer@.subrange(old(self).transmit_index as int, old(self).transmit_index + n),
            ),
            forall|a: u32| #[trigger] final(regs).queue(a) == old(regs).queue(a),
    {
        let mut k: u32 = 0;
        while k < n
            invariant
                k <= n,
                self.wf(),
                old(self).transmit_index + n <= old(self).transmit_buffer@.len(),
                i2c_state(*self, *old(self), old(self).transmit_index + k, old(self).receive_buffer@, old(self).ready, old(self).error),
                regs@ == after_sending(old(regs)@, old(self).transmit_buffer@, old(self).transmit_index as int, k as int),
                sent_data(regs.writes()) == sent_data(old(regs).writes()) + as_words(
                    old(self).transmit_buffer@.subrange(old(self).transmit_index as int, old(self).transmit_index + k),
                ),
                forall|a: u32| #[trigger] regs.queue(a) == old(regs).queue(a),
            decreases n - k,
        {
            let ghost b = old(self).transmit_buffer@;
            let ghost i0 = old(self).transmit_index as int;
            self.write_data(regs);
            proof {
                assert(as_words(b.subrange(i0, i0 + k + 1)) =~= as_words(b.subrange(i0, i0 + k)).push(b[i0 + k] as u32));
            }
            k += 1;
        }
    }

    /// Takes `n` bytes from the data register into the receive buffer.
    pub fn receive_bytes(&mut self, regs: &mut RegisterFile, n: u32)
        requires
            old(self).wf(),
        ensures
            final(self).wf(),
            i2c_state(*final(self), *old(self), old(self).transmit_index as int,
                old(self).receive_buffer@ + received(old(regs).queue(i2c_reg(I2C_DATA)), old(regs)@[i2c_reg(I2C_DATA)], n as nat),
                old(self).ready, old(self).error),
            final(regs)@ == old(regs)@,
            final(regs).writes() == old(regs).writes(),
            final(regs).queue(i2c_reg(I2C_DATA)) == drained(old(regs).queue(i2c_reg(I2C_DATA)), n as nat),
            forall|a: u32| a != i2c_reg(I2C_DATA) ==> #[trigger] final(regs).queue(a) == old(regs).queue(a),
    {
        let ghost q = old(regs).queue(i2c_reg(I2C_DATA));
        let ghost last = old(regs)@[i2c_reg(I2C_DATA)];
        let mut k: u32 = 0;
        while k < n
            invariant
                k <= n,
                self.wf(),
                q == old(regs).queue(i2c_reg(I2C_DATA)),
                last == old(regs)@[i2c_reg(I2C_DATA)],
                i2c_state(*self, *old(self), old(self).transmit_index as int,
                    old(self).receive_buffer@ + received(q, last, k as nat), old(self).ready, old(self).error),
                regs@ == old(regs)@,
                regs.writes() == old(regs).writes(),
                regs.queue(i2c_reg(I2C_DATA)) == drained(q, k as nat),
                forall|a: u32| a != i2c_reg(I2C_DATA) ==> #[trigger] regs.queue(a) == old(regs).queue(a),
            decreases n - k,
        {
            self.read_data(regs);
            proof {
                assert(old(self).receive_buffer@ + received(q, last, (k + 1) as nat) =~= (old(self).receive_buffer@
                    + received(q, last, k as nat)).push(next_in(drained(q, k as nat), last) as u8));
            }
            k += 1;
        }
    }

    /// Prepares the module for a transaction with the slave `address`: enables
    /// it, sets master mode and direction, addresses the slave and empties the
    /// transmit buffer and FIFO. The caller then waits until the bus is not busy.
    pub fn begin_transaction(&mut self, regs: &mut RegisterFile, address: u8, mode: I2cMode)
        requires
            old(self).wf(),
        ensures
            final(self).wf(),
            final(self).transmit_buffer@ == Seq::<u8>::empty(),
            final(self).transmit_index == 0,
            final(self).receive_buffer@ == old(self).receive_buffer@,
            final(self).ready == old(self).ready,
            final(self).error == old(self).error,
            final(self).module == old(self).module,
            final(regs)@ == bit_set(
                or_into(
                    old(regs)@.insert(i2c_reg(I2C_CON), old(regs)@[i2c_reg(I2C_CON)] | (1u32 << 15)),
                    i2c_reg(I2C_CON),
                    (1u32 << 10) | ((if mode == I2cMode::Transmitter { 1u32 } else { 0u32 }) << 9),
                ).insert(i2c_reg(I2C_SA), address as u32),
                i2c_reg(I2C_BUF),
                6,
            ),
            sent_in_order(*final(self), final(regs).writes(), sent_data(old(regs).writes())),
    {
        self.enable(regs);
        self.set_mode(regs, mode);
        self.set_slave(regs, address);
        self.clear_buffer(regs);
        assert(sent_data(regs.writes()) =~= sent_data(old(regs).writes())
            + as_words(self.transmit_buffer@.subrange(0, 0)));
    }

    /// Queues the bytes of one write operation and lets them go: an empty
    /// buffer is skipped (returns `started` unchanged); otherwise the bytes are
    /// appended to the transmit buffer, the count is set to their number, the
    /// module is marked busy, a start condition is put on the bus if none was
    /// yet, and the transmitter events are enabled. Returns whether the
    /// transaction has started. The caller then waits until the module is ready.
    pub fn queue_write(&mut self, regs: &mut RegisterFile, buffer: &[u8], started: bool) -> (now_started: bool)
        requires
            old(self).wf(),
        ensures
            final(self).wf(),
            if buffer@.len() == 0 {
                &&& now_started == started
                &&& *final(self) == *old(self)
                &&& final(regs)@ == old(regs)@
            } else {
                let counted = old(regs)@.insert(i2c_reg(I2C_CNT), buffer@.len() as u32);
                let begun = if started { counted } else { or_into(counted, i2c_reg(I2C_CON), 0x1) };
                &&& now_started
                &&& final(self).transmit_buffer@ == old(self).transmit_buffer@ + buffer@
                &&& final(self).transmit_index == old(self).transmit_index
                &&& final(self).receive_buffer@ == old(self).receive_buffer@
                &&& !final(self).ready
                &&& final(self).error == old(self).error
                &&& final(self).module == old(self).module
                &&& final(regs)@ == or_into(begun, i2c_reg(I2C_IRQSTATUS_SET), mode_mask(I2cMode::Transmitter))
            },
            forall|start: Seq<u32>| #[trigger] sent_in_order(*old(self), old(regs).writes(), start)
                ==> sent_in_order(*final(self), final(regs).writes(), start),
    {
        if buffer.len() == 0 {
            return started;
        }
        let mut i: usize = 0;
        while i < buffer.len()
            invariant
                i <= buffer@.len(),
                self.wf(),
                self.transmit_buffer@ == old(self).transmit_buffer@ + buffer@.subrange(0, i as int),
                self.transmit_index == old(self).transmit_index,
                self.receive_buffer@ == old(self).receive_buffer@,
                self.ready == old(self).ready,
                self.error == old(self).error,
                self.module == old(self).module,
            decreases buffer@.len() - i,
        {
            self.transmit_buffer.push(buffer[i]);
            proof {
                assert(old(self).transmit_buffer@ + buffer@.subrange(0, i + 1) =~= (old(self).transmit_buffer@ + buffer@.subrange(0, i as int)).push(buffer@[i as int]));
            }
            i += 1;
        }
        assert(buffer@.subrange(0, buffer@.len() as int) =~= buffer@);
        assert(self.transmit_buffer@.subrange(0, self.transmit_index as int)
            =~= old(self).transmit_buffer@.subrange(0, old(self).transmit_index as int));
        self.set_count(regs, buffer.len() as u32);
        self.ready = false;
        if !started {
            self.start(regs);
        }
        self.enable_interrupts(regs, I2cMode::Transmitter);
        true
    }

    /// After the module became ready: disables the transmitter events and,
    /// when the operation failed, ends the transaction (stop condition, module
    /// disabled), clears the error and returns it.
    pub fn finish_write(&mut self, regs: &mut RegisterFile) -> (failure: Option<I2cError>)
        requires
            old(self).wf(),
        ensures
            final(self).wf(),
            failure == old(self).error,
            final(self).error is None,
            final(self).transmit_buffer@ == old(self).transmit_buffer@,
            final(self).transmit_index == old(self).transmit_index,
            final(self).receive_buffer@ == old(self).receive_buffer@,
            final(self).ready == old(self).ready,
            final(self).module == old(self).module,
            ({
                let disabled = or_into(old(regs)@, i2c_reg(I2C_IRQSTATUS_CLR), mode_mask(I2cMode::Transmitter));
                final(regs)@ == if old(self).error is Some {
                    bit_cleared(or_into(disabled, i2c_reg(I2C_CON), 0x2), i2c_reg(I2C_CON), 15)
                } else {
                    disabled
                }
            }),
            forall|start: Seq<u32>| #[trigger] sent_in_order(*old(self), old(regs).writes(), start)
                ==> sent_in_order(*final(self), final(regs).writes(), start),
    {
        self.disable_interrupts(regs, I2cMode::Transmitter);
        if let Some(error) = self.error {
            self.stop(regs);
            self.disable(regs);
            self.error = None;
            return Some(error);
        }
        None
    }

    /// Ends the transaction: stop condition, module disabled.
    pub fn end_transaction(&mut self, regs: &mut RegisterFile)
        ensures
            *final(self) == *old(self),
            final(regs)@ == bit_cleared(or_into(old(regs)@, i2c_reg(I2C_CON), 0x2), i2c_reg(I2C_CON), 15),
            forall|start: Seq<u32>| #[trigger] sent_in_order(*old(self), old(regs).writes(), start)
                ==> sent_in_order(*final(self), final(regs).writes(), start),
    {
        self.stop(regs);
        self.disable(regs);
    }

    /// Brings the module up: its clock on, its interrupt line enabled (IRQ,
    /// priority 2), a soft reset requested, the bus clock set, its own address
    /// set and the module enabled. The caller then waits for `reset_done` and
    /// sets the FIFO thresholds with `setup_threshold`.
    pub fn initialize(&self, regs: &mut RegisterFile)
        ensures
            ({
                let clocked = old(regs)@.insert(FuncClock::I2C2.register_spec(), CLOCK_ENABLE);
                let level = clocked.insert(
                    (crate::sys::INTC + INTC_ILR + 4 * I2C2INT) as u32,
                    level_word(Mode::IRQ, 2),
                );
                let clear = (crate::sys::INTC + 0x84 + 4) as u32;
                let unmasked = level.insert(clear, level[clear] | (1u32 << (I2C2INT % 32)));
                let reset = or_into(unmasked, i2c_reg(I2C_SYSC), 0x2);
                let clocks = reset.insert(i2c_reg(I2C_PSC), 3).insert(i2c_reg(I2C_SCLL), 53).insert(i2c_reg(I2C_SCLH), 55);
                final(regs)@ == bit_set(clocks.insert(i2c_reg(I2C_OA), 0x50), i2c_reg(I2C_CON), 15)
            }),
    {
        clock::enable(regs, FuncClock::I2C2);
        interrupts::enable_interrupt(regs, I2C2INT, Mode::IRQ, 2);
        self.soft_reset(regs);
        self.init_clocks(regs);
        self.set_own_address(regs);
        self.enable(regs);
    }

    /// Serves the module's interrupt, looking at the first pending event in
    /// this order: transmit ready (send up to a FIFO threshold of the bytes
    /// left), transmit draining (send as many as the FIFO takes), receive ready
    /// (take a threshold of bytes), receive draining (take what waits), access
    /// ready (the transfer is over), no acknowledge (the transfer failed). The
    /// event served is acknowledged; with none pending nothing happens.
    pub fn irq_handler(&mut self, regs: &mut RegisterFile)
        requires
            old(self).wf(),
            old(self).transmit_buffer@.len() <= u32::MAX,
            ({
                let v = old(regs)@[i2c_reg(I2C_IRQSTATUS)];
                (v & (1u32 << 4) == 0 && v & (1u32 << 14) != 0) ==>
                    old(self).transmit_index + (old(regs)@[i2c_reg(I2C_BUFSTAT)] & 0x3F) <= old(self).transmit_buffer@.len()
            }),
        ensures
            final(self).wf(),
            ({
                let v = old(regs)@[i2c_reg(I2C_IRQSTATUS)];
                let o = *old(self);
                let m = old(regs)@;
                let status = i2c_reg(I2C_IRQSTATUS);
                let data = i2c_reg(I2C_DATA);
                let q = old(regs).queue(data);
                let left = (o.transmit_buffer@.len() - o.transmit_index) as u32;
                if v & (1u32 << 4) != 0 {
                    let n = min_u32(TRANSMIT_THRESHOLD, left);
                    &&& i2c_state(*final(self), o, o.transmit_index + n, o.receive_buffer@, o.ready, o.error)
                    &&& final(regs)@ == after_sending(m, o.transmit_buffer@, o.transmit_index as int, n as int).insert(status, 1u32 << 4)
                } else if v & (1u32 << 14) != 0 {
                    let n = m[i2c_reg(I2C_BUFSTAT)] & 0x3F;
                    &&& i2c_state(*final(self), o, o.transmit_index + n, o.receive_buffer@, o.ready, o.error)
                    &&& final(regs)@ == after_sending(m, o.transmit_buffer@, o.transmit_index as int, n as int).insert(status, 1u32 << 14)
                } else if v & (1u32 << 3) != 0 {
                    &&& i2c_state(*final(self), o, o.transmit_index as int, o.receive_buffer@ + received(q, m[data], RECEIVE_THRESHOLD as nat), o.ready, o.error)
                    &&& final(regs)@ == m.insert(status, 1u32 << 3)
                    &&& final(regs).queue(data) == drained(q, RECEIVE_THRESHOLD as nat)
                } else if v & (1u32 << 13) != 0 {
                    let n = (m[i2c_reg(I2C_BUFSTAT)] >> 8) & 0x3F;
                    &&& i2c_state(*final(self), o, o.transmit_index as int, o.receive_buffer@ + received(q, m[data], n as nat), o.ready, o.error)
                    &&& final(regs)@ == m.insert(status, 1u32 << 13)
                    &&& final(regs).queue(data) == drained(q, n as nat)
                } else if v & (1u32 << 2) != 0 {
                    &&& i2c_state(*final(self), o, o.transmit_index as int, o.receive_buffer@, true, o.error)
                    &&& final(regs)@ == m.insert(status, 1u32 << 2)
                } else if v & (1u32 << 1) != 0 {
                    &&& i2c_state(*final(self), o, o.transmit_index as int, o.receive_buffer@, true, Some(I2cError::Nack))
                    &&& final(regs)@ == m.insert(status, 1u32 << 1)
                } else {
                    &&& i2c_state(*final(self), o, o.transmit_index as int, o.receive_buffer@, o.ready, o.error)
                    &&& final(regs)@ == m
                }
            }),
            ({
                let v = old(regs)@[i2c_reg(I2C_IRQSTATUS)];
                (v & (1u32 << 4) != 0 || v & (1u32 << 14) != 0 || (v & (1u32 << 3) == 0 && v & (1u32 << 13) == 0))
                    ==> final(regs).queue(i2c_reg(I2C_DATA)) == old(regs).queue(i2c_reg(I2C_DATA))
            }),
            forall|a: u32| a != i2c_reg(I2C_DATA) ==> #[trigger] final(regs).queue(a) == old(regs).queue(a),
            sent_data(final(regs).writes()) == sent_data(old(regs).writes()) + as_words(
                old(self).transmit_buffer@.subrange(old(self).transmit_index as int, final(self).transmit_index as int),
            ),
            forall|start: Seq<u32>| #[trigger] sent_in_order(*old(self), old(regs).writes(), start)
                ==> sent_in_order(*final(self), final(regs).writes(), start),
    {
        let value = read_addr(regs, self.base() + I2C_IRQSTATUS);
        if value & I2cInterrupt::XRDY.mask() != 0 {
            let left = self.transmit_bytes_left();
            let n = if TRANSMIT_THRESHOLD <= left { TRANSMIT_THRESHOLD } else { left };
            self.send_bytes(regs, n);
            write_addr(regs, self.base() + I2C_IRQSTATUS, I2cInterrupt::XRDY.mask());
            proof {
                lemma_sent_extends(old(self).transmit_buffer@, old(self).transmit_index as int,
                    self.transmit_index as int, sent_data(old(regs).writes()), sent_data(regs.writes()));
            }
            return;
        }
        if value & I2cInterrupt::XDR.mask() != 0 {
            let n = self.transmit_bytes_available(regs);
            self.send_bytes(regs, n);
            write_addr(regs, self.base() + I2C_IRQSTATUS, I2cInterrupt::XDR.mask());
            proof {
                lemma_sent_extends(old(self).transmit_buffer@, old(self).transmit_index as int,
                    self.transmit_index as int, sent_data(old(regs).writes()), sent_data(regs.writes()));
            }
            return;
        }
        if value & I2cInterrupt::RRDY.mask() != 0 {
            self.receive_bytes(regs, RECEIVE_THRESHOLD);
            write_addr(regs, self.base() + I2C_IRQSTATUS, I2cInterrupt::RRDY.mask());
            return;
        }
        if value & I2cInterrupt::RDR.mask() != 0 {
            let n = self.receive_bytes_available(regs);
            self.receive_bytes(regs, n);
            write_addr(regs, self.base() + I2C_IRQSTATUS, I2cInterrupt::RDR.mask());
            return;
        }
        if value & I2cInterrupt::ARDY.mask() != 0 {
            self.ready = true;
            write_addr(regs, self.base() + I2C_IRQSTATUS, I2cInterrupt::ARDY.mask());
            return;
        }
        if value & I2cInterrupt::NACK.mask() != 0 {
            self.error = Some(I2cError::Nack);
            self.ready = true;
            write_addr(regs, self.base() + I2C_IRQSTATUS, I2cInterrupt::NACK.mask());
        }
    }

}

/// `m` after sending `n` bytes of `buffer` from `from` on: the data register
/// holds the last one.
pub open spec fn after_sending(m: Map<u32, u32>, buffer: Seq<u8>, from: int, n: int) -> Map<u32, u32> {
    if n <= 0 {
        m
    } else {
        m.insert(i2c_reg(I2C_DATA), buffer[from + n - 1] as u32)
    }
}

/// What is left of the receive queue `queue` after `n` reads.
pub open spec fn drained(queue: Seq<u32>, n: nat) -> Seq<u32>
    decreases n,
{
    if n == 0 {
        queue
    } else {
        after_read(drained(queue, (n - 1) as nat))
    }
}

/// The bytes that `n` reads of the data register take, oldest first: the
/// queued values in turn, and the register's value `last` once none is left.
pub open spec fn received(queue: Seq<u32>, last: u32, n: nat) -> Seq<u8>
    decreases n,
{
    if n == 0 {
        Seq::empty()
    } else {
        received(queue, last, (n - 1) as nat).push(next_in(drained(queue, (n - 1) as nat), last) as u8)
    }
}

/// The values written to the data register, oldest first, in the record `log`.
pub open spec fn sent_data(log: Seq<(u32, u32)>) -> Seq<u32> {
    writes_to(log, i2c_reg(I2C_DATA))
}

/// Bytes as the words that carry them to the data register.
pub open spec fn as_words(bytes: Seq<u8>) -> Seq<u32> {
    bytes.map_values(|b: u8| b as u32)
}

/// The bytes written to the data register since `start` are exactly the sent
/// part of the transmit buffer, in order.
pub open spec fn sent_in_order(i2c: I2C, log: Seq<(u32, u32)>, start: Seq<u32>) -> bool {
    sent_data(log) == start + as_words(i2c.transmit_buffer@.subrange(0, i2c.transmit_index as int))
}

/// Data that grew from `before` by the words of `b` from `i` to `j` is,
/// whatever came before a prefix `i` of `b`, that same start followed by the
/// longer prefix `j`.
pub proof fn lemma_sent_extends(b: Seq<u8>, i: int, j: int, before: Seq<u32>, after: Seq<u32>)
    requires
        0 <= i <= j <= b.len(),
        after == before + as_words(b.subrange(i, j)),
    ensures
        forall|start: Seq<u32>| before == start + as_words(b.subrange(0, i))
            ==> #[trigger] (start + as_words(b.subrange(0, j))) == after,
{
    assert forall|start: Seq<u32>| before == start + as_words(b.subrange(0, i))
        implies #[trigger] (start + as_words(b.subrange(0, j))) == after by {
        assert(start + as_words(b.subrange(0, j)) =~= start + as_words(b.subrange(0, i)) + as_words(b.subrange(i, j)));
    }
}

/// A write transaction puts the bytes of its operations on the bus in the
/// order they were queued: once every queued byte has gone out, the data
/// register has received, since the transaction began, exactly the transmit
/// buffer (the non-empty operations one after the other), byte by byte.
pub proof fn law_write_transaction_sends_in_order(i2c: I2C, log: Seq<(u32, u32)>, start: Seq<u32>)
    requires
        i2c.wf(),
        sent_in_order(i2c, log, start),
        i2c.transmit_index == i2c.transmit_buffer@.len(),
    ensures
        sent_data(log) == start + as_words(i2c.transmit_buffer@),
{
    assert(i2c.transmit_buffer@.subrange(0, i2c.transmit_index as int) =~= i2c.transmit_buffer@);
}

/// The smaller of two counts.
pub open spec fn min_u32(a: u32, b: u32) -> u32 {
    if a <= b { a } else { b }
}

/// `after` is `before` with only its transmit progress, receive buffer,
/// ready flag and error changed to the given values.
pub open spec fn i2c_state(after: I2C, before: I2C, index: int, receive: Seq<u8>, ready: bool, error: Option<I2cError>) -> bool {
    &&& after.module == before.module
    &&& after.transmit_buffer@ == before.transmit_buffer@
    &&& after.transmit_index == index
    &&& after.receive_buffer@ == receive
    &&& after.ready == ready
    &&& after.error == error
}

/// The union of the bits of the first `n` events of `s`.
pub open spec fn partial_mask(s: Seq<I2cInterrupt>, n: int) -> u32
    decreases n,
{
    if n <= 0 {
        0
    } else {
        partial_mask(s, n - 1) | s[n - 1].mask_spec()
    }
}

/// What happened last in a write transaction.
#[derive(Clone, Copy, PartialEq, Eq, Structural)]
pub enum TransactionEvent {
    /// The transaction began and the bus is free.
    BusFree,
    /// A buffer went out; the transfer ended with this error, if any.
    Written(Option<I2cError>),
}

/// What a write transaction does next.
#[derive(Clone, Copy, PartialEq, Eq, Structural)]
pub enum TransactionAction {
    /// Queue the buffer at this position of the transaction and wait until it is out.
    Queue(usize),
    /// End the transaction: every buffer went out.
    End,
    /// Give up with this error (the transfer was already stopped).
    Fail(I2cError),
}

/// The first buffer at or after position `from` that holds bytes.
pub open spec fn first_nonempty(lengths: Seq<usize>, from: int) -> Option<int>
    decreases lengths.len() - from,
{
    if from < 0 || from >= lengths.len() {
        None
    } else if lengths[from] != 0 {
        Some(from)
    } else {
        first_nonempty(lengths, from + 1)
    }
}

/// The first non-empty buffer at or after `from`, if any, is the one
/// `first_nonempty` names: it holds bytes, and every buffer between `from`
/// and it is empty; when there is none, every buffer from `from` on is empty.
pub proof fn law_first_nonempty(lengths: Seq<usize>, from: int)
    requires
        0 <= from,
    ensures
        match first_nonempty(lengths, from) {
            Some(k) => {
                &&& from <= k < lengths.len()
                &&& lengths[k] != 0
                &&& forall|j: int| from <= j < k ==> #[trigger] lengths[j] == 0
            },
            None => forall|j: int| from <= j < lengths.len() ==> #[trigger] lengths[j] == 0,
        },
    decreases lengths.len() - from,
{
    if from < lengths.len() && lengths[from] == 0 {
        law_first_nonempty(lengths, from + 1);
    }
}

/// The next step of a write transaction over buffers of the given lengths,
/// the buffers before position `from` being done: an error ends it, empty
/// buffers are passed over, the next one that holds bytes is queued, and
/// after the last one the transaction ends.
pub fn next_write(lengths: &[usize], from: usize, event: TransactionEvent) -> (a: TransactionAction)
    ensures
        a == match event {
            TransactionEvent::Written(Some(e)) => TransactionAction::Fail(e),
            _ => match first_nonempty(lengths@, from as int) {
                Some(k) => TransactionAction::Queue(k as usize),
                None => TransactionAction::End,
            },
        },
        match a {
            TransactionAction::Fail(e) => event == TransactionEvent::Written(Some(e)),
            TransactionAction::Queue(k) => {
                &&& !(event is Written && event->0 is Some)
                &&& from <= k < lengths@.len()
                &&& lengths@[k as int] != 0
                &&& forall|j: int| from <= j < k ==> #[trigger] lengths@[j] == 0
            },
            TransactionAction::End => {
                &&& !(event is Written && event->0 is Some)
                &&& forall|j: int| from <= j < lengths@.len() ==> #[trigger] lengths@[j] == 0
            },
        },
{
    proof {
        law_first_nonempty(lengths@, from as int);
    }
    if let TransactionEvent::Written(Some(e)) = event {
        return TransactionAction::Fail(e);
    }
    let mut k = from;
    while k < lengths.len()
        invariant
            from <= k,
            first_nonempty(lengths@, from as int) == first_nonempty(lengths@, k as int),
            event == TransactionEvent::BusFree || event == TransactionEvent::Written(None),
        decreases lengths.len() - k,
    {
        if lengths[k] != 0 {
            assert(first_nonempty(lengths@, k as int) == Some(k as int));
            proof {
                law_first_nonempty(lengths@, from as int);
            }
            return TransactionAction::Queue(k);
        }
        assert(first_nonempty(lengths@, k as int) == first_nonempty(lengths@, k + 1));
        k = k + 1;
    }
    TransactionAction::End
}

} // verus!
