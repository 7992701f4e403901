//! PL011-compatible UART driver over a modeled register block.
//!
//! The peripheral's memory-mapped interface is modeled as explicit data: the
//! write-only control path (control, interrupt-clear, divisor and line-control
//! registers) becomes a trace of register writes, and the data path becomes
//! two byte queues — the bytes the driver has placed on the transmit wire and
//! the bytes that have arrived on the receive wire and not been read yet. The
//! flag-register spin conditions of real hardware (transmit-full, busy,
//! receive-empty) appear as conditions over those queues; the transmit path of
//! the model accepts a byte immediately, so only the receive-empty condition
//! remains observable.

use vstd::prelude::*;
use crate::mmio::MMIODerefWrapper;
use crate::synchronization::{Mutex, NullLock};

verus! {

/// Input clock of the UART block, as configured by the board firmware.
pub const UART_INPUT_CLOCK_HZ: u32 = 48_000_000;

/// Baud rate the driver programs.
pub const TARGET_BAUD: u32 = 921_600;

/// Line-control value: 8-bit words, FIFOs enabled (field WLEN at bit 5,
/// eight-bit encoding 0b11; field FEN at bit 4).
pub const LCR_H_8N1_FIFO_ENABLED: u32 = (0b11u32 << 5) | (1u32 << 4);

/// Control value: UART enabled, transmit enabled, receive enabled (fields
/// UARTEN at bit 0, TXE at bit 8, RXE at bit 9).
pub const CR_UART_TX_RX_ENABLED: u32 = (1u32 << 9) | (1u32 << 8) | 1u32;

/// Value written to the 11-bit "all interrupts" field of the interrupt-clear
/// register during power-on sequencing.
pub const ICR_ALL_FIELD_CLEARED: u32 = 0;

/// Byte offsets of the registers inside the PL011 block.
pub const DR_OFFSET: usize = 0x00;

pub const FR_OFFSET: usize = 0x18;

pub const IBRD_OFFSET: usize = 0x24;

pub const FBRD_OFFSET: usize = 0x28;

pub const LCR_H_OFFSET: usize = 0x2c;

pub const CR_OFFSET: usize = 0x30;

pub const ICR_OFFSET: usize = 0x44;

/// Marker for the PL011 register block layout, addressed through
/// [`MMIODerefWrapper`]; the `*_OFFSET` constants give each register's byte
/// offset from the block's base address.
pub struct RegisterBlock;

/// Write-only control-path registers of the block. Data-register traffic is
/// modeled by the transmit and receive queues instead.
#[derive(Clone, Copy, PartialEq, Eq, Structural, Debug)]
pub enum UartReg {
    /// Integer baud-rate divisor.
    Ibrd,
    /// Fractional baud-rate divisor.
    Fbrd,
    /// Line control (word length, FIFO enable). Divisor writes only latch
    /// into effect on a write to this register.
    LcrH,
    /// Control (UART/TX/RX enable).
    Cr,
    /// Interrupt clear.
    Icr,
}

/// One write of a 32-bit value to a control-path register.
#[derive(Clone, Copy, PartialEq, Eq, Structural, Debug)]
pub struct RegWrite {
    pub reg: UartReg,
    pub value: u32,
}

/// Power-on state machine of the driver. The initializing phase is never
/// externally observable: `init` leaves the driver `Ready`, and no
/// intermediate state escapes the call.
#[derive(Clone, Copy, PartialEq, Eq, Structural, Debug)]
pub enum UartState {
    Uninitialized,
    Initializing,
    Ready,
}

/// Whether a receive call waits for a byte or gives up immediately.
#[derive(Clone, Copy, PartialEq, Eq, Structural, Debug)]
pub enum BlockingMode {
    Blocking,
    NonBlocking,
}

/// Integer part of the baud-rate divisor: `(clock / 16) / baud`.
pub open spec fn spec_baud_divint(clock: u32, baud: u32) -> int {
    (clock as int / 16) / baud as int
}

/// Fractional part of the baud-rate divisor, scaled by 64 and rounded to
/// the nearest integer: `floor(((clock / 16) mod baud) * 64 / baud + 1/2)`.
pub open spec fn spec_baud_divfrac(clock: u32, baud: u32) -> int {
    ((clock as int / 16) % baud as int * 128 + baud as int) / (2 * baud as int)
}

/// The byte a character occupies on the wire: the data register takes the
/// low eight bits of the character's scalar value.
pub open spec fn wire_byte(c: char) -> u8 {
    (c as u32 % 256) as u8
}

/// Receive-side translation: a carriage return is turned into a newline; no
/// other byte is transformed.
pub open spec fn rx_translate(b: u8) -> u8 {
    if b == 13 {
        10
    } else {
        b
    }
}

/// The exact order of control-path writes that `init` performs: disable,
/// clear pending interrupts, program both divisor halves, then the
/// line-control write that latches them — always last of the three — and
/// finally the enable write.
pub open spec fn init_write_sequence() -> Seq<RegWrite> {
    seq![
        RegWrite { reg: UartReg::Cr, value: 0 },
        RegWrite { reg: UartReg::Icr, value: ICR_ALL_FIELD_CLEARED },
        RegWrite {
            reg: UartReg::Ibrd,
            value: spec_baud_divint(UART_INPUT_CLOCK_HZ, TARGET_BAUD) as u32,
        },
        RegWrite {
            reg: UartReg::Fbrd,
            value: spec_baud_divfrac(UART_INPUT_CLOCK_HZ, TARGET_BAUD) as u32,
        },
        RegWrite { reg: UartReg::LcrH, value: LCR_H_8N1_FIFO_ENABLED },
        RegWrite { reg: UartReg::Cr, value: CR_UART_TX_RX_ENABLED },
    ]
}

/// Compute the two baud-rate divisor register values for a given input
/// clock and target baud rate.
pub fn baud_divisors(clock: u32, baud: u32) -> (r: (u32, u32))
    requires
        baud > 0,
    ensures
        r.0 == spec_baud_divint(clock, baud),
        r.1 == spec_baud_divfrac(clock, baud),
        r.1 <= 64,
{
    let base: u32 = clock / 16;
    let divint: u32 = base / baud;
    let rem: u32 = base % baud;
    let divfrac64: u64 = (rem as u64 * 128 + baud as u64) / (2 * baud as u64);
    assert(divfrac64 <= 64) by {
        assert((rem as int * 128 + baud as int) / (2 * baud as int) <= 64) by (nonlinear_arith)
            requires
                0 < baud as int,
                (rem as int) < (baud as int);
    };
    (divint, divfrac64 as u32)
}

/// The part of the UART that the serialization lock protects.
pub struct PL011UartInner {
    pub registers: MMIODerefWrapper<RegisterBlock>,
    /// Model of the control path: every write to a write-only register, in
    /// program order.
    pub mmio_writes: Vec<RegWrite>,
    /// Model of the transmit path: every byte placed on the wire, in order.
    pub tx_wire: Vec<u8>,
    /// Model of the receive path: bytes that arrived on the wire and have
    /// not been read yet; index 0 is the oldest.
    pub rx_fifo: Vec<u8>,
    pub state: UartState,
    pub chars_written: usize,
    pub chars_read: usize,
}

impl PL011UartInner {
    /// The base address of the register block.
    pub open spec fn spec_mmio_start(&self) -> usize {
        self.registers.spec_start_addr()
    }

    /// Everything except the receive queue and the read counter is the same
    /// in both states.
    pub open spec fn same_but_rx(&self, other: &Self) -> bool {
        &&& self.registers == other.registers
        &&& self.mmio_writes == other.mmio_writes
        &&& self.tx_wire == other.tx_wire
        &&& self.state == other.state
        &&& self.chars_written == other.chars_written
    }

    /// Everything except the transmit queue and the write counter is the
    /// same in both states.
    pub open spec fn same_but_tx(&self, other: &Self) -> bool {
        &&& self.registers == other.registers
        &&& self.mmio_writes == other.mmio_writes
        &&& self.rx_fifo == other.rx_fifo
        &&& self.state == other.state
        &&& self.chars_read == other.chars_read
    }

    /// Create an instance for the register block at `mmio_start_addr`.
    pub fn new(mmio_start_addr: usize) -> (r: Self)
        ensures
            r.spec_mmio_start() == mmio_start_addr,
            r.mmio_writes@ == Seq::<RegWrite>::empty(),
            r.tx_wire@ == Seq::<u8>::empty(),
            r.rx_fifo@ == Seq::<u8>::empty(),
            r.state == UartState::Uninitialized,
            r.chars_written == 0,
            r.chars_read == 0,
    {
        PL011UartInner {
            registers: MMIODerefWrapper::new(mmio_start_addr),
            mmio_writes: Vec::new(),
            tx_wire: Vec::new(),
            rx_fifo: Vec::new(),
            state: UartState::Uninitialized,
            chars_written: 0,
            chars_read: 0,
        }
    }

    /// Set up baud rate and characteristics.
    ///
    /// The result is 8 data bits, no parity, 1 stop bit at [`TARGET_BAUD`]
    /// baud, with FIFOs enabled. For a 48 MHz input clock the divisor is
    /// `(48_000_000 / 16) / 921_600 = 3.2552`, so the integer register gets
    /// `3` and the fractional register `round(0.2552 * 64) = 16`, for an
    /// effective rate of `48_000_000 / (16 * 3.25) ≈ 923_077` (0.16 % off
    /// nominal).
    ///
    /// The line-control register is written after both divisor registers,
    /// because divisor writes only latch into effect on a line-control
    /// write; the enable write comes last, so no intermediate configuration
    /// is ever active.
    pub fn init(&mut self)
        ensures
            final(self).state == UartState::Ready,
            final(self).mmio_writes@ == old(self).mmio_writes@ + init_write_sequence(),
            final(self).tx_wire == old(self).tx_wire,
            final(self).rx_fifo == old(self).rx_fifo,
            final(self).chars_written == old(self).chars_written,
            final(self).chars_read == old(self).chars_read,
            final(self).registers == old(self).registers,
    {
        // Execution can arrive here while a character queued by an earlier
        // instance (a panic handler's own UART, for example) is still being
        // transmitted. Turning the UART off at that point would lose it, so
        // flush first.
        self.flush();

        self.state = UartState::Initializing;

        // Turn the UART off temporarily.
        self.push_reg_write(UartReg::Cr, 0);

        // Clear all pending interrupts.
        self.push_reg_write(UartReg::Icr, ICR_ALL_FIELD_CLEARED);

        // From the PL011 technical reference manual:
        //
        // The LCR_H, IBRD, and FBRD registers form the single 30-bit wide
        // LCR register that is updated on a single write strobe generated by
        // a LCR_H write. So to internally update the contents of IBRD or
        // FBRD, a LCR_H write must always be performed at the end.
        //
        // Set the baud rate, 8N1 and FIFO enabled.
        let (divint, divfrac) = baud_divisors(UART_INPUT_CLOCK_HZ, TARGET_BAUD);
        self.push_reg_write(UartReg::Ibrd, divint);
        self.push_reg_write(UartReg::Fbrd, divfrac);
        self.push_reg_write(UartReg::LcrH, LCR_H_8N1_FIFO_ENABLED);

        // Turn the UART on.
        self.push_reg_write(UartReg::Cr, CR_UART_TX_RX_ENABLED);

        self.state = UartState::Ready;

        assert(self.mmio_writes@ =~= old(self).mmio_writes@ + init_write_sequence());
    }

    /// Send a character.
    ///
    /// On hardware this spins while the transmit FIFO is full; the model's
    /// transmit path accepts a byte immediately, so the wait is empty.
    pub fn write_char(&mut self, c: char)
        requires
            old(self).chars_written < usize::MAX,
        ensures
            final(self).tx_wire@ == old(self).tx_wire@.push(wire_byte(c)),
            final(self).chars_written == old(self).chars_written + 1,
            final(self).same_but_tx(&old(self)),
    {
        // Write the character to the buffer.
        let code: u32 = c as u32;
        self.tx_wire.push((code % 256) as u8);

        self.chars_written = self.chars_written + 1;
    }

    /// Block execution until the last buffered character has been physically
    /// put on the TX wire.
    ///
    /// On hardware this spins while the busy flag is set; in the model every
    /// transmitted byte is already on the wire, so the busy condition never
    /// holds and the call changes nothing.
    pub fn flush(&self) {
    }

    /// Receive a character.
    ///
    /// If the receive queue is empty, a non-blocking call gives up at once;
    /// a blocking call waits until a byte arrives, which is why its
    /// precondition asks that one is already pending — on hardware the wait
    /// has no bound, and a byte that never arrives would spin forever.
    pub fn read_char_converting(&mut self, blocking_mode: BlockingMode) -> (r: Option<char>)
        requires
            old(self).rx_fifo@.len() > 0 ==> old(self).chars_read < usize::MAX,
            blocking_mode == BlockingMode::Blocking ==> old(self).rx_fifo@.len() > 0,
        ensures
            old(self).rx_fifo@.len() == 0 ==> r is None && *final(self) == *old(self),
            old(self).rx_fifo@.len() > 0 ==> {
                &&& r == Some(rx_translate(old(self).rx_fifo@[0]) as char)
                &&& final(self).rx_fifo@ == old(self).rx_fifo@.drop_first()
                &&& final(self).chars_read == old(self).chars_read + 1
                &&& final(self).same_but_rx(&old(self))
            },
    {
        if self.rx_fifo.len() == 0 {
            // Immediately return in non-blocking mode.
            if blocking_mode == BlockingMode::NonBlocking {
                return None;
            }
            // Otherwise, wait until a char was received; by the
            // precondition one is already pending, so there is nothing to
            // spin on here.
        }

        // Read one character.
        let byte = self.rx_fifo.remove(0);

        // Convert carriage return to newline.
        let converted: u8 = if byte == 13 {
            10
        } else {
            byte
        };

        // Update statistics.
        self.chars_read = self.chars_read + 1;

        assert(self.rx_fifo@ =~= old(self).rx_fifo@.drop_first());

        Some(converted as char)
    }

    /// Receive one byte exactly as it arrived on the wire, with no
    /// translation: a raw read of the data register. The chainloader's
    /// binary path uses this; the character path goes through
    /// [`Self::read_char_converting`].
    ///
    /// As with a blocking character read, the precondition asks that a byte
    /// is already pending — on hardware the call would spin until one
    /// arrives.
    pub fn read_byte(&mut self) -> (r: u8)
        requires
            old(self).rx_fifo@.len() > 0,
            old(self).chars_read < usize::MAX,
        ensures
            r == old(self).rx_fifo@[0],
            final(self).rx_fifo@ == old(self).rx_fifo@.drop_first(),
            final(self).chars_read == old(self).chars_read + 1,
            final(self).same_but_rx(&old(self)),
    {
        let byte = self.rx_fifo.remove(0);

        // Update statistics.
        self.chars_read = self.chars_read + 1;

        assert(self.rx_fifo@ =~= old(self).rx_fifo@.drop_first());

        byte
    }

    /// Send a string, character by character.
    pub fn write_str_chars(&mut self, s: &str)
        requires
            old(self).chars_written + s@.len() <= usize::MAX,
        ensures
            final(self).tx_wire@ == old(self).tx_wire@ + s@.map_values(|c: char| wire_byte(c)),
            final(self).chars_written == old(self).chars_written + s@.len(),
            final(self).same_but_tx(&old(self)),
    {
        let n = s.unicode_len();
        let mut i: usize = 0;
        while i < n
            invariant
                n == s@.len(),
                i <= n,
                old(self).chars_written + n <= usize::MAX,
                self.chars_written == old(self).chars_written + i,
                self.tx_wire@ == old(self).tx_wire@ + s@.take(i as int).map_values(
                    |c: char| wire_byte(c),
                ),
                self.same_but_tx(&old(self)),
            decreases n - i,
        {
            let c = s.get_char(i);
            self.write_char(c);
            i = i + 1;
            assert(s@.take(i as int).map_values(|ch: char| wire_byte(ch)) =~= s@.take(
                i - 1,
            ).map_values(|ch: char| wire_byte(ch)).push(wire_byte(c)));
            assert(self.tx_wire@ =~= old(self).tx_wire@ + s@.take(i as int).map_values(
                |ch: char| wire_byte(ch),
            ));
        }
        assert(s@.take(n as int) =~= s@);
    }

    /// A byte arrives on the receive wire and is queued behind the bytes
    /// already pending. This is the hardware side of the model: the driver
    /// never calls it, the environment does.
    pub fn receive_byte(&mut self, b: u8)
        ensures
            final(self).rx_fifo@ == old(self).rx_fifo@.push(b),
            final(self).chars_read == old(self).chars_read,
            final(self).same_but_rx(&old(self)),
    {
        self.rx_fifo.push(b);
    }

    fn push_reg_write(&mut self, reg: UartReg, value: u32)
        ensures
            final(self).mmio_writes@ == old(self).mmio_writes@.push(RegWrite { reg, value }),
            final(self).tx_wire == old(self).tx_wire,
            final(self).rx_fifo == old(self).rx_fifo,
            final(self).chars_written == old(self).chars_written,
            final(self).chars_read == old(self).chars_read,
            final(self).registers == old(self).registers,
            final(self).state == old(self).state,
    {
        self.mmio_writes.push(RegWrite { reg, value });
    }
}

/// Representation of the UART.
pub struct PL011Uart {
    inner: NullLock<PL011UartInner>,
}

impl PL011Uart {
    /// Compatibility string identifying the device.
    pub const COMPATIBLE: &'static str = "BCM PL011 UART";

    /// The locked driver state, for use in contracts. Every method funnels
    /// its access through the serialization lock.
    pub closed spec fn device(&self) -> PL011UartInner {
        self.inner.spec_data()
    }

    /// Create an instance for the register block at `mmio_start_addr`.
    ///
    /// The caller vouches that the address is the base of a valid PL011
    /// MMIO region.
    pub fn new(mmio_start_addr: usize) -> (r: Self)
        ensures
            r.device().spec_mmio_start() == mmio_start_addr,
            r.device().mmio_writes@ == Seq::<RegWrite>::empty(),
            r.device().tx_wire@ == Seq::<u8>::empty(),
            r.device().rx_fifo@ == Seq::<u8>::empty(),
            r.device().state == UartState::Uninitialized,
            r.device().chars_written == 0,
            r.device().chars_read == 0,
    {
        PL011Uart { inner: NullLock::new(PL011UartInner::new(mmio_start_addr)) }
    }

    /// Power the device up, guarded by the serialization lock.
    pub fn init(&mut self) -> (r: Result<(), &'static str>)
        ensures
            r is Ok,
            final(self).device().state == UartState::Ready,
            final(self).device().mmio_writes@ == old(self).device().mmio_writes@
                + init_write_sequence(),
            final(self).device().tx_wire == old(self).device().tx_wire,
            final(self).device().rx_fifo == old(self).device().rx_fifo,
            final(self).device().chars_written == old(self).device().chars_written,
            final(self).device().chars_read == old(self).device().chars_read,
            final(self).device().registers == old(self).device().registers,
    {
        self.inner.lock().init();

        Ok(())
    }

    /// Send a character, guarded by the serialization lock.
    pub fn write_char(&mut self, c: char)
        requires
            old(self).device().chars_written < usize::MAX,
        ensures
            final(self).device().tx_wire@ == old(self).device().tx_wire@.push(wire_byte(c)),
            final(self).device().chars_written == old(self).device().chars_written + 1,
            final(self).device().same_but_tx(&old(self).device()),
    {
        self.inner.lock().write_char(c);
    }

    /// Send a string, character by character, guarded by the serialization
    /// lock.
    pub fn write_str(&mut self, s: &str)
        requires
            old(self).device().chars_written + s@.len() <= usize::MAX,
        ensures
            final(self).device().tx_wire@ == old(self).device().tx_wire@ + s@.map_values(
                |c: char| wire_byte(c),
            ),
            final(self).device().chars_written == old(self).device().chars_written + s@.len(),
            final(self).device().same_but_tx(&old(self).device()),
    {
        self.inner.lock().write_str_chars(s);
    }

    /// Block until the last buffered character has physically left on the
    /// wire.
    pub fn flush(&self) {
        // Spin until the busy flag is cleared; the model's wire is always
        // caught up, so there is nothing to wait for.
    }

    /// Receive a character, blocking until one is available.
    ///
    /// The precondition asks that a byte is already pending: on hardware a
    /// byte that never arrives would leave this call spinning forever.
    pub fn read_char(&mut self) -> (r: char)
        requires
            old(self).device().chars_read < usize::MAX,
            old(self).device().rx_fifo@.len() > 0,
        ensures
            r == rx_translate(old(self).device().rx_fifo@[0]) as char,
            final(self).device().rx_fifo@ == old(self).device().rx_fifo@.drop_first(),
            final(self).device().chars_read == old(self).device().chars_read + 1,
            final(self).device().same_but_rx(&old(self).device()),
    {
        let r = self.inner.lock().read_char_converting(BlockingMode::Blocking);
        r.unwrap()
    }

    /// Receive one byte exactly as it arrived, with no translation,
    /// blocking until one is available.
    pub fn read_byte(&mut self) -> (r: u8)
        requires
            old(self).device().rx_fifo@.len() > 0,
            old(self).device().chars_read < usize::MAX,
        ensures
            r == old(self).device().rx_fifo@[0],
            final(self).device().rx_fifo@ == old(self).device().rx_fifo@.drop_first(),
            final(self).device().chars_read == old(self).device().chars_read + 1,
            final(self).device().same_but_rx(&old(self).device()),
    {
        self.inner.lock().read_byte()
    }

    /// Discard whatever is sitting in the receive queue, reading until it
    /// reports empty.
    pub fn clear_rx(&mut self)
        requires
            old(self).device().chars_read + old(self).device().rx_fifo@.len() <= usize::MAX,
        ensures
            final(self).device().rx_fifo@ == Seq::<u8>::empty(),
            final(self).device().chars_read == old(self).device().chars_read + old(
                self,
            ).device().rx_fifo@.len(),
            final(self).device().same_but_rx(&old(self).device()),
    {
        // Read from the RX FIFO until it is indicating empty.
        loop
            invariant
                self.device().chars_read + self.device().rx_fifo@.len() == old(
                    self,
                ).device().chars_read + old(self).device().rx_fifo@.len(),
                self.device().chars_read + self.device().rx_fifo@.len() <= usize::MAX,
                self.device().same_but_rx(&old(self).device()),
            ensures
                self.device().rx_fifo@.len() == 0,
                self.device().chars_read + self.device().rx_fifo@.len() == old(
                    self,
                ).device().chars_read + old(self).device().rx_fifo@.len(),
                self.device().same_but_rx(&old(self).device()),
            decreases self.device().rx_fifo@.len(),
        {
            if self.inner.lock().read_char_converting(BlockingMode::NonBlocking).is_none() {
                break;
            }
        }
    }

    /// Bytes arrive on the receive wire, in order. This is the hardware side
    /// of the model: the driver never calls it, the environment does.
    pub fn receive_bytes(&mut self, bytes: &Vec<u8>)
        ensures
            final(self).device().rx_fifo@ == old(self).device().rx_fifo@ + bytes@,
            final(self).device().chars_read == old(self).device().chars_read,
            final(self).device().same_but_rx(&old(self).device()),
    {
        let mut i: usize = 0;
        while i < bytes.len()
            invariant
                i <= bytes@.len(),
                self.device().rx_fifo@ == old(self).device().rx_fifo@ + bytes@.take(i as int),
                self.device().chars_read == old(self).device().chars_read,
                self.device().same_but_rx(&old(self).device()),
            decreases bytes@.len() - i,
        {
            let b = bytes[i];
            self.inner.lock().receive_byte(b);
            i = i + 1;
            assert(old(self).device().rx_fifo@ + bytes@.take(i - 1).push(b) =~= old(
                self,
            ).device().rx_fifo@ + bytes@.take(i as int));
        }
        assert(bytes@.take(bytes@.len() as int) =~= bytes@);
    }

    /// Number of characters written so far.
    pub fn chars_written(&self) -> (r: usize)
        ensures
            r == self.device().chars_written,
    {
        // The lock-guarded read needs mutable access in this model; the
        // counter is a plain field, so an immutable view suffices.
        self.peek().chars_written
    }

    /// Number of characters read so far.
    pub fn chars_read(&self) -> (r: usize)
        ensures
            r == self.device().chars_read,
    {
        self.peek().chars_read
    }

    /// The bytes placed on the transmit wire so far, oldest first.
    pub fn tx_wire(&self) -> (r: &Vec<u8>)
        ensures
            r@ == self.device().tx_wire@,
    {
        &self.peek().tx_wire
    }

    fn peek(&self) -> (r: &PL011UartInner)
        ensures
            *r == self.device(),
    {
        self.inner.peek()
    }
}

} // verus!
