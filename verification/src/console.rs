//! System console.
//!
//! The console is a capability over three orthogonal abilities — character
//! write, character read, and usage statistics — with a do-nothing fallback
//! implementation for each. The process-wide current console is a single
//! swappable slot behind the serialization lock: printing call sites resolve
//! through it, and panic handling can swap in the fallback console that
//! depends on no other invariant.

use vstd::prelude::*;
use crate::synchronization::{Mutex, NullLock};
use crate::uart::{wire_byte, rx_translate, PL011Uart, PL011UartInner};

verus! {

/// Console write functions, specified against a per-implementation model:
/// the byte stream the console has emitted and the count of written
/// characters. A partially-capable implementation may discard output; the
/// guarantees then say exactly that nothing changes.
pub trait Write: Sized {
    /// Whether `n` more written characters can still be accounted for by
    /// this console's statistics.
    spec fn can_count_writes(&self, n: nat) -> bool;

    /// Whether this console records its output, or discards it.
    spec fn records_output(&self) -> bool;

    /// The bytes this console has emitted so far, oldest first.
    spec fn output(&self) -> Seq<u8>;

    /// The byte encoding this console gives a string.
    spec fn encode_str(&self, s: Seq<char>) -> Seq<u8>;

    /// How many characters this console has counted as written.
    spec fn written_count(&self) -> int;

    /// Write a single character.
    fn write_char(&mut self, c: char)
        requires
            old(self).can_count_writes(1),
        ensures
            final(self).records_output() == old(self).records_output(),
            old(self).records_output() ==> {
                &&& final(self).output() == old(self).output().push(wire_byte(c))
                &&& final(self).written_count() == old(self).written_count() + 1
            },
            !old(self).records_output() ==> *final(self) == *old(self),
    ;

    /// Write a string, character by character.
    fn write_str(&mut self, s: &str)
        requires
            old(self).can_count_writes(s@.len()),
        ensures
            final(self).records_output() == old(self).records_output(),
            old(self).records_output() ==> {
                &&& final(self).output() == old(self).output() + old(self).encode_str(s@)
                &&& final(self).written_count() == old(self).written_count() + old(
                    self,
                ).encode_str(s@).len()
            },
            !old(self).records_output() ==> *final(self) == *old(self),
    ;

    /// Block until the last buffered character has been physically put on
    /// the TX wire.
    fn flush(&self);
}

/// Console read functions, specified against a per-implementation model:
/// the bytes pending on the console's input and the count of read
/// characters. A partially-capable implementation may have no input at all;
/// a read then answers with a blank and changes nothing.
pub trait Read: Sized {
    /// Whether a blocking read returns without waiting: a byte is pending,
    /// or the implementation never waits at all.
    spec fn read_ready(&self) -> bool;

    /// Whether draining the whole receive buffer can still be accounted for
    /// by this console's statistics.
    spec fn can_count_drain(&self) -> bool;

    /// Whether this console has an input source at all.
    spec fn records_input(&self) -> bool;

    /// The bytes pending on this console's input, oldest first.
    spec fn pending_input(&self) -> Seq<u8>;

    /// How many characters this console has counted as read.
    spec fn read_count(&self) -> int;

    /// Read a single character.
    fn read_char(&mut self) -> (r: char)
        requires
            old(self).read_ready(),
            old(self).can_count_drain(),
        ensures
            final(self).records_input() == old(self).records_input(),
            old(self).records_input() ==> {
                &&& r == rx_translate(old(self).pending_input()[0]) as char
                &&& final(self).pending_input() == old(self).pending_input().drop_first()
                &&& final(self).read_count() == old(self).read_count() + 1
            },
            !old(self).records_input() ==> *final(self) == *old(self) && r == ' ',
    ;

    /// Clear RX buffers, if any.
    fn clear_rx(&mut self)
        requires
            old(self).can_count_drain(),
        ensures
            final(self).records_input() == old(self).records_input(),
            old(self).records_input() ==> {
                &&& final(self).pending_input() == Seq::<u8>::empty()
                &&& final(self).read_count() == old(self).read_count() + old(
                    self,
                ).pending_input().len()
            },
            !old(self).records_input() ==> *final(self) == *old(self),
    ;
}

/// Console statistics.
pub trait Statistics {
    /// The written-character count, for use in contracts.
    spec fn spec_chars_written(&self) -> usize;

    /// The read-character count, for use in contracts.
    spec fn spec_chars_read(&self) -> usize;

    /// Return the number of characters written.
    fn chars_written(&self) -> (r: usize)
        ensures
            r == self.spec_chars_written(),
    ;

    /// Return the number of characters read.
    fn chars_read(&self) -> (r: usize)
        ensures
            r == self.spec_chars_read(),
    ;
}

/// Trait alias for a full-fledged console.
pub trait All: Write + Read + Statistics {}

/// The fallback console that writes nowhere and never has input pending.
/// It makes no assumption about the rest of the system, which is what the
/// panic path needs.
pub struct NullConsole;

impl NullConsole {
    /// Create an instance.
    pub fn new() -> (r: Self) {
        NullConsole
    }
}

impl Write for NullConsole {
    open spec fn can_count_writes(&self, n: nat) -> bool {
        true
    }

    open spec fn records_output(&self) -> bool {
        false
    }

    open spec fn output(&self) -> Seq<u8> {
        Seq::empty()
    }

    open spec fn encode_str(&self, s: Seq<char>) -> Seq<u8> {
        Seq::empty()
    }

    open spec fn written_count(&self) -> int {
        0
    }

    fn write_char(&mut self, c: char) {
    }

    fn write_str(&mut self, s: &str) {
    }

    fn flush(&self) {
    }
}

impl Read for NullConsole {
    open spec fn read_ready(&self) -> bool {
        true
    }

    open spec fn can_count_drain(&self) -> bool {
        true
    }

    open spec fn records_input(&self) -> bool {
        false
    }

    open spec fn pending_input(&self) -> Seq<u8> {
        Seq::empty()
    }

    open spec fn read_count(&self) -> int {
        0
    }

    fn read_char(&mut self) -> char {
        ' '
    }

    fn clear_rx(&mut self) {
    }
}

impl Statistics for NullConsole {
    open spec fn spec_chars_written(&self) -> usize {
        0
    }

    open spec fn spec_chars_read(&self) -> usize {
        0
    }

    fn chars_written(&self) -> usize {
        0
    }

    fn chars_read(&self) -> usize {
        0
    }
}

impl All for NullConsole {

}

impl Write for PL011Uart {
    open spec fn can_count_writes(&self, n: nat) -> bool {
        self.device().chars_written + n <= usize::MAX
    }

    open spec fn records_output(&self) -> bool {
        true
    }

    open spec fn output(&self) -> Seq<u8> {
        self.device().tx_wire@
    }

    open spec fn encode_str(&self, s: Seq<char>) -> Seq<u8> {
        s.map_values(|c: char| wire_byte(c))
    }

    open spec fn written_count(&self) -> int {
        self.device().chars_written as int
    }

    fn write_char(&mut self, c: char) {
        PL011Uart::write_char(self, c)
    }

    fn write_str(&mut self, s: &str) {
        PL011Uart::write_str(self, s)
    }

    fn flush(&self) {
        PL011Uart::flush(self)
    }
}

impl Read for PL011Uart {
    open spec fn read_ready(&self) -> bool {
        self.device().rx_fifo@.len() > 0
    }

    open spec fn can_count_drain(&self) -> bool {
        self.device().chars_read + self.device().rx_fifo@.len() <= usize::MAX
    }

    open spec fn records_input(&self) -> bool {
        true
    }

    open spec fn pending_input(&self) -> Seq<u8> {
        self.device().rx_fifo@
    }

    open spec fn read_count(&self) -> int {
        self.device().chars_read as int
    }

    fn read_char(&mut self) -> char {
        PL011Uart::read_char(self)
    }

    fn clear_rx(&mut self) {
        PL011Uart::clear_rx(self)
    }
}

impl Statistics for PL011Uart {
    open spec fn spec_chars_written(&self) -> usize {
        self.device().chars_written
    }

    open spec fn spec_chars_read(&self) -> usize {
        self.device().chars_read
    }

    fn chars_written(&self) -> usize {
        PL011Uart::chars_written(self)
    }

    fn chars_read(&self) -> usize {
        PL011Uart::chars_read(self)
    }
}

impl All for PL011Uart {

}

/// A console capability: the do-nothing fallback, or the board's UART.
///
/// The set of console implementations is closed, so the current-console
/// indirection is explicit dispatch over this type.
pub enum Console {
    Null(NullConsole),
    Uart(PL011Uart),
}

impl Console {
    /// The UART behind the console, for use in contracts.
    pub open spec fn uart_device(&self) -> PL011UartInner
        recommends
            self is Uart,
    {
        self->Uart_0.device()
    }

    /// Write a single character to the current console.
    pub fn write_char(&mut self, c: char)
        requires
            (*old(self)) is Uart ==> old(self).uart_device().chars_written < usize::MAX,
        ensures
            (*old(self)) is Null ==> *final(self) == *old(self),
            (*old(self)) is Uart ==> {
                &&& (*final(self)) is Uart
                &&& final(self).uart_device().tx_wire@ == old(self).uart_device().tx_wire@.push(
                    wire_byte(c),
                )
                &&& final(self).uart_device().chars_written == old(
                    self,
                ).uart_device().chars_written + 1
                &&& final(self).uart_device().same_but_tx(&old(self).uart_device())
            },
    {
        match self {
            Console::Null(_) => {
            },
            Console::Uart(uart) => uart.write_char(c),
        }
    }

    /// Write a string to the current console, character by character.
    pub fn write_str(&mut self, s: &str)
        requires
            (*old(self)) is Uart ==> old(self).uart_device().chars_written + s@.len() <= usize::MAX,
        ensures
            (*old(self)) is Null ==> *final(self) == *old(self),
            (*old(self)) is Uart ==> {
                &&& (*final(self)) is Uart
                &&& final(self).uart_device().tx_wire@ == old(self).uart_device().tx_wire@
                    + s@.map_values(|c: char| wire_byte(c))
                &&& final(self).uart_device().chars_written == old(
                    self,
                ).uart_device().chars_written + s@.len()
                &&& final(self).uart_device().same_but_tx(&old(self).uart_device())
            },
    {
        match self {
            Console::Null(_) => {
            },
            Console::Uart(uart) => uart.write_str(s),
        }
    }

    /// Block until the last buffered character has physically left on the
    /// wire.
    pub fn flush(&self) {
        match self {
            Console::Null(_) => {
            },
            Console::Uart(uart) => uart.flush(),
        }
    }

    /// Read a single character, blocking until one is available. The
    /// fallback console never has input and answers with a blank at once.
    pub fn read_char(&mut self) -> (r: char)
        requires
            (*old(self)) is Uart ==> {
                &&& old(self).uart_device().rx_fifo@.len() > 0
                &&& old(self).uart_device().chars_read < usize::MAX
            },
        ensures
            (*old(self)) is Null ==> *final(self) == *old(self) && r == ' ',
            (*old(self)) is Uart ==> {
                &&& (*final(self)) is Uart
                &&& r == rx_translate(old(self).uart_device().rx_fifo@[0]) as char
                &&& final(self).uart_device().rx_fifo@ == old(
                    self,
                ).uart_device().rx_fifo@.drop_first()
                &&& final(self).uart_device().chars_read == old(self).uart_device().chars_read + 1
                &&& final(self).uart_device().same_but_rx(&old(self).uart_device())
            },
    {
        match self {
            Console::Null(_) => ' ',
            Console::Uart(uart) => uart.read_char(),
        }
    }

    /// Receive one byte exactly as it arrived, with no translation,
    /// blocking until one is available. Only the UART carries a binary
    /// receive path, so the capability is demanded up front.
    pub fn read_byte(&mut self) -> (r: u8)
        requires
            (*old(self)) is Uart,
            old(self).uart_device().rx_fifo@.len() > 0,
            old(self).uart_device().chars_read < usize::MAX,
        ensures
            (*final(self)) is Uart,
            r == old(self).uart_device().rx_fifo@[0],
            final(self).uart_device().rx_fifo@ == old(self).uart_device().rx_fifo@.drop_first(),
            final(self).uart_device().chars_read == old(self).uart_device().chars_read + 1,
            final(self).uart_device().same_but_rx(&old(self).uart_device()),
    {
        match self {
            Console::Null(_) => {
                proof {
                    assert(false);
                }
                0
            },
            Console::Uart(uart) => uart.read_byte(),
        }
    }

    /// Discard whatever is sitting in the receive buffer.
    pub fn clear_rx(&mut self)
        requires
            (*old(self)) is Uart ==> old(self).uart_device().chars_read + old(
                self,
            ).uart_device().rx_fifo@.len() <= usize::MAX,
        ensures
            (*old(self)) is Null ==> *final(self) == *old(self),
            (*old(self)) is Uart ==> {
                &&& (*final(self)) is Uart
                &&& final(self).uart_device().rx_fifo@ == Seq::<u8>::empty()
                &&& final(self).uart_device().chars_read == old(self).uart_device().chars_read
                    + old(self).uart_device().rx_fifo@.len()
                &&& final(self).uart_device().same_but_rx(&old(self).uart_device())
            },
    {
        match self {
            Console::Null(_) => {
            },
            Console::Uart(uart) => uart.clear_rx(),
        }
    }

    /// Bytes arrive on the console's receive wire. This is the hardware side
    /// of the model: the kernel's environment produces these bytes.
    pub fn receive_bytes(&mut self, bytes: &Vec<u8>)
        requires
            (*old(self)) is Uart,
        ensures
            (*final(self)) is Uart,
            final(self).uart_device().rx_fifo@ == old(self).uart_device().rx_fifo@ + bytes@,
            final(self).uart_device().chars_read == old(self).uart_device().chars_read,
            final(self).uart_device().same_but_rx(&old(self).uart_device()),
    {
        match self {
            Console::Null(_) => {
                proof {
                    assert(false);
                }
            },
            Console::Uart(uart) => uart.receive_bytes(bytes),
        }
    }

    /// Number of characters written through this console.
    pub fn chars_written(&self) -> (r: usize)
        ensures
            self is Null ==> r == 0,
            self is Uart ==> r == self.uart_device().chars_written,
    {
        match self {
            Console::Null(_) => 0,
            Console::Uart(uart) => uart.chars_written(),
        }
    }

    /// Number of characters read through this console.
    pub fn chars_read(&self) -> (r: usize)
        ensures
            self is Null ==> r == 0,
            self is Uart ==> r == self.uart_device().chars_read,
    {
        match self {
            Console::Null(_) => 0,
            Console::Uart(uart) => uart.chars_read(),
        }
    }
}

/// Register a new console: the slot's previous console is replaced.
pub fn register_console(cur_console: &mut NullLock<Console>, new_console: Console)
    ensures
        final(cur_console).spec_data() == new_console,
{
    *cur_console.lock() = new_console;
}

/// Resolve the currently registered console.
///
/// This is the global console that every printing call site goes through.
pub fn console(cur_console: &mut NullLock<Console>) -> (r: &mut Console)
    ensures
        *r == old(cur_console).spec_data(),
        final(cur_console).spec_data() == *final(r),
{
    cur_console.lock()
}

} // verus!
