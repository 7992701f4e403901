use miniload::uart::{
    baud_divisors, BlockingMode, PL011Uart, PL011UartInner, RegWrite, UartReg, UartState,
};

/// Input clock 48 MHz at 921 600 baud gives integer divisor 3 and
/// fractional divisor 16, exactly.
#[test]
fn baud_divisors_for_48mhz_at_921600() {
    assert_eq!(baud_divisors(48_000_000, 921_600), (3, 16));
}

#[test]
fn baud_divisors_exact_division_has_zero_fraction() {
    // 1_843_200 / 16 = 115_200, divides evenly: fraction rounds to 0.
    assert_eq!(baud_divisors(1_843_200, 115_200), (1, 0));
}

#[test]
fn init_writes_the_power_on_sequence_in_order() {
    let mut uart = PL011UartInner::new(0x3F20_1000);
    uart.init();
    let expected = vec![
        RegWrite { reg: UartReg::Cr, value: 0 },
        RegWrite { reg: UartReg::Icr, value: 0 },
        RegWrite { reg: UartReg::Ibrd, value: 3 },
        RegWrite { reg: UartReg::Fbrd, value: 16 },
        RegWrite { reg: UartReg::LcrH, value: 0x70 },
        RegWrite { reg: UartReg::Cr, value: 0x301 },
    ];
    assert_eq!(uart.mmio_writes, expected);
    assert_eq!(uart.state, UartState::Ready);
}

#[test]
fn init_twice_appends_the_sequence_twice() {
    let mut uart = PL011UartInner::new(0x3F20_1000);
    uart.init();
    uart.init();
    assert_eq!(uart.mmio_writes.len(), 12);
    assert_eq!(uart.mmio_writes[6], RegWrite { reg: UartReg::Cr, value: 0 });
    assert_eq!(uart.state, UartState::Ready);
}

#[test]
fn write_char_puts_the_byte_on_the_wire_and_counts_once() {
    let mut uart = PL011Uart::new(0x3F20_1000);
    uart.write_char('A');
    uart.write_char('!');
    assert_eq!(uart.tx_wire().as_slice(), b"A!");
    assert_eq!(uart.chars_written(), 2);
}

#[test]
fn write_str_sends_characters_untranslated() {
    let mut uart = PL011Uart::new(0x3F20_1000);
    uart.write_str("hi\n");
    assert_eq!(uart.tx_wire().as_slice(), b"hi\n");
    assert_eq!(uart.chars_written(), 3);
}

/// A blocking read returns exactly one character per call, translating a
/// carriage return to a newline and transforming nothing else.
#[test]
fn blocking_read_translates_carriage_return_only() {
    let mut uart = PL011Uart::new(0x3F20_1000);
    uart.receive_bytes(&vec![13, 65, 10, 0]);
    assert_eq!(uart.read_char(), '\n');
    assert_eq!(uart.read_char(), 'A');
    assert_eq!(uart.read_char(), '\n');
    assert_eq!(uart.read_char(), '\0');
    assert_eq!(uart.chars_read(), 4);
}

/// Repeated non-blocking reads on an empty receive queue return "no data"
/// every time, without mutating the read counter.
#[test]
fn non_blocking_read_on_empty_queue_is_idempotent() {
    let mut uart = PL011UartInner::new(0x3F20_1000);
    assert_eq!(uart.read_char_converting(BlockingMode::NonBlocking), None);
    assert_eq!(uart.read_char_converting(BlockingMode::NonBlocking), None);
    assert_eq!(uart.read_char_converting(BlockingMode::NonBlocking), None);
    assert_eq!(uart.chars_read, 0);
    assert_eq!(uart.rx_fifo.len(), 0);
}

#[test]
fn non_blocking_read_with_data_behaves_like_blocking() {
    let mut uart = PL011UartInner::new(0x3F20_1000);
    uart.receive_byte(b'x');
    assert_eq!(uart.read_char_converting(BlockingMode::NonBlocking), Some('x'));
    assert_eq!(uart.chars_read, 1);
}

#[test]
fn clear_rx_drains_everything_and_counts_each_byte() {
    let mut uart = PL011Uart::new(0x3F20_1000);
    uart.receive_bytes(&vec![1, 2, 3]);
    uart.clear_rx();
    assert_eq!(uart.chars_read(), 3);
    uart.clear_rx();
    assert_eq!(uart.chars_read(), 3);
}

/// Counters never decrease and move by exactly one per successful
/// character operation.
#[test]
fn counters_increase_by_exactly_one_per_operation() {
    let mut uart = PL011Uart::new(0x3F20_1000);
    assert_eq!(uart.chars_written(), 0);
    assert_eq!(uart.chars_read(), 0);
    uart.write_char('a');
    assert_eq!(uart.chars_written(), 1);
    uart.write_char('b');
    assert_eq!(uart.chars_written(), 2);
    uart.receive_bytes(&vec![7, 8]);
    assert_eq!(uart.chars_read(), 0);
    uart.read_char();
    assert_eq!(uart.chars_read(), 1);
    uart.read_char();
    assert_eq!(uart.chars_read(), 2);
    uart.flush();
    assert_eq!(uart.chars_written(), 2);
    assert_eq!(uart.chars_read(), 2);
}

#[test]
fn wire_bytes_take_the_low_eight_bits() {
    let mut uart = PL011Uart::new(0x3F20_1000);
    uart.write_char('\u{0101}');
    assert_eq!(uart.tx_wire().as_slice(), &[0x01]);
}
