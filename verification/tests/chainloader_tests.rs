use miniload::bsp::memory::BOARD_DEFAULT_LOAD_ADDRESS;
use miniload::console::Console;
use miniload::kernel::kernel_main;
use miniload::uart::PL011Uart;

fn uart_console() -> Console {
    Console::Uart(PL011Uart::new(0x3F20_1000))
}

fn transfer_for(payload: &[u8]) -> Vec<u8> {
    let len = payload.len() as u32;
    let mut transfer = vec![
        (len & 0xFF) as u8,
        ((len >> 8) & 0xFF) as u8,
        ((len >> 16) & 0xFF) as u8,
        ((len >> 24) & 0xFF) as u8,
    ];
    transfer.extend_from_slice(payload);
    transfer
}

/// Round trip: the payload bytes sent after the handshake and
/// acknowledgment end up, in order, at consecutive offsets of the load
/// region, and control transfers to the board's load address.
#[test]
fn chainloader_round_trip_stores_the_payload_verbatim() {
    let mut console = uart_console();
    let payload = b"second stage";
    let transfer = transfer_for(payload);
    let mut load_region: Vec<u8> = Vec::new();

    let entry = kernel_main(&mut console, &transfer, &mut load_region);

    assert_eq!(entry, BOARD_DEFAULT_LOAD_ADDRESS);
    assert_eq!(load_region.as_slice(), payload);
}

/// A zero-length transfer writes nothing, and control still transfers to
/// the load address.
#[test]
fn chainloader_zero_length_transfer_writes_nothing() {
    let mut console = uart_console();
    let transfer = transfer_for(b"");
    let mut load_region: Vec<u8> = vec![9, 9, 9];

    let entry = kernel_main(&mut console, &transfer, &mut load_region);

    assert_eq!(entry, BOARD_DEFAULT_LOAD_ADDRESS);
    assert_eq!(load_region, vec![9, 9, 9]);
}

#[test]
fn chainloader_emits_ready_signal_then_acknowledgment() {
    let mut console = uart_console();
    let transfer = transfer_for(b"ab");
    let mut load_region: Vec<u8> = Vec::new();

    kernel_main(&mut console, &transfer, &mut load_region);

    match &console {
        Console::Uart(uart) => {
            assert_eq!(uart.tx_wire().as_slice(), &[3, 3, 3, b'O', b'K']);
        }
        Console::Null(_) => panic!("the console must stay the UART"),
    }
}

#[test]
fn chainloader_discards_stray_bytes_before_the_transfer() {
    let mut console = uart_console();
    console.receive_bytes(&vec![0xFF, 0x55]);
    let payload = b"xy";
    let transfer = transfer_for(payload);
    let mut load_region: Vec<u8> = Vec::new();

    kernel_main(&mut console, &transfer, &mut load_region);

    assert_eq!(load_region.as_slice(), payload);
    // 2 stray + 4 length + 2 payload bytes were read.
    assert_eq!(console.chars_read(), 8);
    assert_eq!(console.chars_written(), 5);
}

#[test]
fn chainloader_overwrites_a_prefilled_region_prefix_only() {
    let mut console = uart_console();
    let transfer = transfer_for(b"ab");
    let mut load_region: Vec<u8> = vec![7, 7, 7, 7];

    kernel_main(&mut console, &transfer, &mut load_region);

    assert_eq!(load_region, vec![b'a', b'b', 7, 7]);
}

/// The binary path is raw: a carriage return in the payload is stored
/// untouched, unlike on the console's character path.
#[test]
fn chainloader_keeps_carriage_returns_in_the_payload() {
    let mut console = uart_console();
    let transfer = transfer_for(&[b'a', 13, b'b']);
    let mut load_region: Vec<u8> = Vec::new();

    kernel_main(&mut console, &transfer, &mut load_region);

    assert_eq!(load_region, vec![b'a', 13, b'b']);
}

/// The length field is raw too: a length whose low byte is 0x0D declares
/// exactly 13 bytes, and all 13 are stored.
#[test]
fn chainloader_reads_the_length_field_untranslated() {
    let mut console = uart_console();
    let payload: Vec<u8> = (0..13u8).collect();
    let transfer = transfer_for(&payload);
    assert_eq!(transfer[0], 13);
    let mut load_region: Vec<u8> = Vec::new();

    kernel_main(&mut console, &transfer, &mut load_region);

    assert_eq!(load_region, payload);
    // 4 length + 13 payload bytes were consumed, nothing left queued.
    assert_eq!(console.chars_read(), 17);
}
