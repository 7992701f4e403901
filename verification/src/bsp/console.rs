//! BSP console facilities.
//!
//! [`QEMUOutput`] is the early bring-up console: a device that conjures
//! output out of nowhere when the kernel runs under an emulator, modeled —
//! like the UART — by the sequence of bytes it has emitted. Once the real
//! UART driver is online, [`console`] wraps it as the system console.

use vstd::prelude::*;
use crate::console::{Console, Statistics, Write};
use crate::synchronization::{Mutex, NullLock};
use crate::uart::{wire_byte, PL011Uart, PL011UartInner};

verus! {

/// The bytes `write_str` emits for a string: every newline becomes carriage
/// return plus newline, every other character its wire byte.
pub open spec fn crlf_expand(s: Seq<char>) -> Seq<u8>
    decreases s.len(),
{
    if s.len() == 0 {
        Seq::empty()
    } else {
        crlf_expand(s.drop_last()) + (if s.last() == '\n' {
            seq![13u8, 10u8]
        } else {
            seq![wire_byte(s.last())]
        })
    }
}

/// Expanding a string at most doubles its length.
pub proof fn lemma_crlf_expand_len(s: Seq<char>)
    ensures
        crlf_expand(s).len() <= 2 * s.len(),
    decreases s.len(),
{
    if s.len() > 0 {
        lemma_crlf_expand_len(s.drop_last());
    }
}

/// The part of the QEMU output device that the serialization lock protects.
pub struct QEMUOutputInner {
    /// Model of the emitted byte stream, in order.
    pub tx: Vec<u8>,
    pub chars_written: usize,
}

impl QEMUOutputInner {
    /// Create an instance.
    pub fn new() -> (r: Self)
        ensures
            r.tx@ == Seq::<u8>::empty(),
            r.chars_written == 0,
    {
        QEMUOutputInner { tx: Vec::new(), chars_written: 0 }
    }

    /// Send a character.
    pub fn write_char(&mut self, c: char)
        requires
            old(self).chars_written < usize::MAX,
        ensures
            final(self).tx@ == old(self).tx@.push(wire_byte(c)),
            final(self).chars_written == old(self).chars_written + 1,
    {
        let code: u32 = c as u32;
        self.tx.push((code % 256) as u8);

        self.chars_written = self.chars_written + 1;
    }

    /// Send a string, converting each newline into carriage return plus
    /// newline.
    pub fn write_str(&mut self, s: &str)
        requires
            old(self).chars_written + 2 * s@.len() <= usize::MAX,
        ensures
            final(self).tx@ == old(self).tx@ + crlf_expand(s@),
            final(self).chars_written == old(self).chars_written + crlf_expand(s@).len(),
    {
        let n = s.unicode_len();
        let mut i: usize = 0;
        while i < n
            invariant
                n == s@.len(),
                i <= n,
                old(self).chars_written + 2 * n <= usize::MAX,
                self.tx@ == old(self).tx@ + crlf_expand(s@.take(i as int)),
                self.chars_written == old(self).chars_written + crlf_expand(
                    s@.take(i as int),
                ).len(),
            decreases n - i,
        {
            proof {
                lemma_crlf_expand_len(s@.take(i as int));
            }
            let c = s.get_char(i);

            // Convert newline to carriage return + newline.
            if c == '\n' {
                self.write_char('\r');
            }
            self.write_char(c);

            i = i + 1;
            proof {
                assert(s@.take(i as int).drop_last() =~= s@.take(i - 1));
                assert(s@.take(i as int).last() == s@[i - 1]);
                if c == '\n' {
                    assert(wire_byte('\r') == 13u8);
                    assert(wire_byte('\n') == 10u8);
                    assert((old(self).tx@ + crlf_expand(s@.take(i - 1))).push(wire_byte('\r')).push(
                        wire_byte(c),
                    ) =~= old(self).tx@ + crlf_expand(s@.take(i as int)));
                } else {
                    assert((old(self).tx@ + crlf_expand(s@.take(i - 1))).push(wire_byte(c)) =~= old(
                        self,
                    ).tx@ + crlf_expand(s@.take(i as int)));
                }
            }
        }
        proof {
            assert(s@.take(n as int) =~= s@);
        }
    }
}

/// The QEMU bring-up console.
pub struct QEMUOutput {
    inner: NullLock<QEMUOutputInner>,
}

impl QEMUOutput {
    /// The locked device state, for use in contracts.
    pub closed spec fn device(&self) -> QEMUOutputInner {
        self.inner.spec_data()
    }

    /// Create a new instance.
    pub fn new() -> (r: Self)
        ensures
            r.device().tx@ == Seq::<u8>::empty(),
            r.device().chars_written == 0,
    {
        QEMUOutput { inner: NullLock::new(QEMUOutputInner::new()) }
    }
}

impl Write for QEMUOutput {
    open spec fn can_count_writes(&self, n: nat) -> bool {
        self.device().chars_written + 2 * n <= usize::MAX
    }

    open spec fn records_output(&self) -> bool {
        true
    }

    open spec fn output(&self) -> Seq<u8> {
        self.device().tx@
    }

    open spec fn encode_str(&self, s: Seq<char>) -> Seq<u8> {
        crlf_expand(s)
    }

    open spec fn written_count(&self) -> int {
        self.device().chars_written as int
    }

    fn write_char(&mut self, c: char) {
        self.inner.lock().write_char(c);
    }

    fn write_str(&mut self, s: &str) {
        self.inner.lock().write_str(s);
    }

    fn flush(&self) {
        // The emulated device keeps no buffer: emitted bytes are already
        // out.
    }
}

impl Statistics for QEMUOutput {
    open spec fn spec_chars_written(&self) -> usize {
        self.device().chars_written
    }

    open spec fn spec_chars_read(&self) -> usize {
        0
    }

    fn chars_written(&self) -> usize {
        self.inner.peek().chars_written
    }

    fn chars_read(&self) -> usize {
        // This console cannot read; the statistic stays at its fallback.
        0
    }
}

/// Wrap the board's main UART as the system console.
pub fn console(uart: PL011Uart) -> (r: Console)
    ensures
        r is Uart,
        r.uart_device() == uart.device(),
{
    Console::Uart(uart)
}

} // verus!
