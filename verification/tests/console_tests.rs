use miniload::bsp::console::{QEMUOutput, QEMUOutputInner};
use miniload::console::{
    register_console, All, Console, NullConsole, Read, Statistics, Write,
};
use miniload::synchronization::{Mutex, NullLock};
use miniload::uart::PL011Uart;

#[test]
fn null_console_discards_and_answers_blank() {
    let mut null = NullConsole::new();
    null.write_char('x');
    null.write_str("hello");
    null.flush();
    assert_eq!(null.read_char(), ' ');
    null.clear_rx();
    assert_eq!(null.chars_written(), 0);
    assert_eq!(null.chars_read(), 0);
}

#[test]
fn console_slot_starts_null_and_swaps_to_the_uart() {
    let mut cur_console = NullLock::new(Console::Null(NullConsole::new()));
    {
        let console = miniload::console::console(&mut cur_console);
        console.write_char('x');
        assert_eq!(console.chars_written(), 0);
    }

    let uart = PL011Uart::new(0x3F20_1000);
    register_console(&mut cur_console, miniload::bsp::console::console(uart));

    let console = miniload::console::console(&mut cur_console);
    console.write_char('x');
    assert_eq!(console.chars_written(), 1);
}

#[test]
fn console_dispatches_reads_to_the_uart() {
    let uart = PL011Uart::new(0x3F20_1000);
    let mut console = Console::Uart(uart);
    console.receive_bytes(&vec![13, b'y']);
    assert_eq!(console.read_char(), '\n');
    assert_eq!(console.read_char(), 'y');
    assert_eq!(console.chars_read(), 2);
}

#[test]
fn console_clear_rx_then_write_str() {
    let uart = PL011Uart::new(0x3F20_1000);
    let mut console = Console::Uart(uart);
    console.receive_bytes(&vec![1, 2]);
    console.clear_rx();
    console.write_str("ok");
    console.flush();
    assert_eq!(console.chars_read(), 2);
    assert_eq!(console.chars_written(), 2);
}

#[test]
fn qemu_output_expands_newlines_to_carriage_return_newline() {
    let mut inner = QEMUOutputInner::new();
    inner.write_str("a\nb");
    assert_eq!(inner.tx.as_slice(), &[b'a', b'\r', b'\n', b'b']);
    assert_eq!(inner.chars_written, 4);
}

#[test]
fn qemu_output_counts_through_the_lock() {
    let mut qemu = QEMUOutput::new();
    qemu.write_str("one\n");
    qemu.write_char('!');
    qemu.flush();
    assert_eq!(qemu.chars_written(), 6);
    assert_eq!(qemu.chars_read(), 0);
}

#[test]
fn uart_console_traits_match_inherent_behavior() {
    fn drive<C: All>(console: &mut C) -> (usize, usize) {
        console.write_char('a');
        console.write_str("bc");
        console.flush();
        let c = console.read_char();
        assert_eq!(c, 'z');
        console.clear_rx();
        (console.chars_written(), console.chars_read())
    }

    let mut uart = PL011Uart::new(0x3F20_1000);
    uart.receive_bytes(&vec![b'z', 0]);
    assert_eq!(drive(&mut uart), (3, 2));
}

#[test]
fn null_lock_hands_out_its_data() {
    let mut lock = NullLock::new(41);
    *lock.lock() += 1;
    assert_eq!(*lock.peek(), 42);
}
