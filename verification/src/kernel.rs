//! The kernel's own logic: first-stage initialization and the chainloader
//! main loop.
//!
//! The chainloader receives a second-stage binary over the serial line and
//! hands back the address to transfer execution to. Its wire protocol, over
//! the console capability: discard stray input, send three ETX bytes as the
//! ready signal, read a 4-byte little-endian length, acknowledge with "OK",
//! then read exactly that many bytes into consecutive offsets of the load
//! region. The length is deliberately not validated against available
//! memory — the protocol trusts a cooperating sender, and the embedding
//! program owns the region it hands in.
//!
//! The binary path reads raw bytes: unlike the console's character reads,
//! nothing is translated, so the stored image is byte-exact — the
//! round-trip lemma states it for every payload.

use vstd::prelude::*;
use crate::bsp;
use crate::bsp::memory::BOARD_DEFAULT_LOAD_ADDRESS;
use crate::bsp::BoardVariant;
use crate::console::{register_console, Console, NullConsole};
use crate::driver::{gpio_after, uart_state_after, uart_writes_after, ConfigurationError,
    DeviceDriverDescriptor, DriverManager};
use crate::gpio::{map_pl011_uart_sequence, spec_fsel_14_15_alt0, GpioStep, GPIO};
use crate::synchronization::{Mutex, NullLock};
use crate::uart::{init_write_sequence, RegWrite, UartState, PL011Uart};

verus! {

/// The payload length a transfer declares: its first four bytes combined
/// little-endian, exactly as they arrived.
pub open spec fn declared_load_size(t: Seq<u8>) -> int
    recommends
        t.len() >= 4,
{
    t[0] + t[1] * 0x100 + t[2] * 0x1_0000 + t[3] * 0x100_0000
}

/// The four bytes that encode `len` little-endian on the wire.
pub open spec fn spec_le_bytes(len: u32) -> Seq<u8> {
    seq![
        (len % 0x100) as u8,
        (len / 0x100 % 0x100) as u8,
        (len / 0x1_0000 % 0x100) as u8,
        (len / 0x100_0000) as u8,
    ]
}

/// Chainloader round trip: a transfer that declares length `len` and then
/// carries exactly `len` payload bytes is stored verbatim — the declared
/// size reads back as `len`, and the byte stored at offset `i` is exactly
/// payload byte `i`, for every payload. (For a transfer of length zero
/// nothing is stored, and `kernel_main`'s contract still hands control to
/// the load address.)
pub proof fn lemma_chainloader_round_trip(len: u32, payload: Seq<u8>, transfer: Seq<u8>)
    requires
        transfer == spec_le_bytes(len) + payload,
        payload.len() == len,
    ensures
        transfer.len() == 4 + len,
        declared_load_size(transfer) == len,
        forall|i: int| 0 <= i < payload.len() ==> transfer[4 + i] == payload[i],
{
    assert(transfer[0] == (len % 0x100) as u8);
    assert(transfer[1] == (len / 0x100 % 0x100) as u8);
    assert(transfer[2] == (len / 0x1_0000 % 0x100) as u8);
    assert(transfer[3] == (len / 0x100_0000) as u8);
    assert(len % 0x100 + (len / 0x100 % 0x100) * 0x100 + (len / 0x1_0000 % 0x100) * 0x1_0000 + (len
        / 0x100_0000) * 0x100_0000 == len) by (bit_vector);
}

/// First-stage initialization: create the board's devices, register their
/// drivers with the kernel, initialize them strictly in registration order,
/// and promote the then-ready UART to system console.
///
/// On this board the sequence cannot fail — the fresh registry has room for
/// both drivers and both inits succeed — so the error paths that report a
/// failing driver by name are provably never taken here. The caller hands
/// the returned console slot to `kernel_main`.
pub fn kernel_init(variant: BoardVariant) -> (r: Result<
    (DriverManager, GPIO, NullLock<Console>),
    ConfigurationError,
>)
    ensures
        r is Ok,
        ({
            let (mgr, gpio, cur_console) = r->Ok_0;
            let chip = bsp::spec_chip_of(variant);
            &&& mgr.spec_descriptors() == seq![
                bsp::driver::spec_gpio_descriptor(),
                bsp::driver::spec_uart_descriptor(),
            ]
            &&& gpio.device().spec_mmio_start() == bsp::memory::spec_gpio_mmio_start(variant)
            &&& gpio.device().chip == chip
            &&& gpio.device().gpfsel1 == spec_fsel_14_15_alt0(0)
            &&& gpio.device().steps@ == map_pl011_uart_sequence(chip, 0)
            &&& cur_console.spec_data() is Uart
            &&& cur_console.spec_data().uart_device().spec_mmio_start()
                == bsp::memory::spec_pl011_uart_mmio_start(variant)
            &&& cur_console.spec_data().uart_device().state == UartState::Ready
            &&& cur_console.spec_data().uart_device().mmio_writes@ == init_write_sequence()
            &&& cur_console.spec_data().uart_device().tx_wire@ == Seq::<u8>::empty()
            &&& cur_console.spec_data().uart_device().rx_fifo@ == Seq::<u8>::empty()
            &&& cur_console.spec_data().uart_device().chars_written == 0
            &&& cur_console.spec_data().uart_device().chars_read == 0
        }),
{
    // Initialize the BSP driver subsystem.
    let mut mgr = bsp::driver::driver_manager();
    if let Err(e) = bsp::driver::init(&mut mgr) {
        return Err(e);
    }

    // Create the board's devices.
    let mut gpio = GPIO::new(bsp::memory::gpio_mmio_start(variant), bsp::chip_of(variant));
    let mut uart = PL011Uart::new(bsp::memory::pl011_uart_mmio_start(variant));

    // Initialize all device drivers, strictly in registration order.
    let _init_log = match mgr.init_drivers(&mut gpio, &mut uart) {
        Ok(log) => log,
        Err(e) => {
            return Err(e);
        },
    };

    proof {
        let ds = mgr.spec_descriptors();
        let gd = bsp::driver::spec_gpio_descriptor();
        let ud = bsp::driver::spec_uart_descriptor();
        assert(ds =~= seq![gd, ud]);
        assert(ds.drop_first() =~= seq![ud]);
        assert(seq![ud].drop_first() =~= Seq::<DeviceDriverDescriptor>::empty());
        let e = Seq::<RegWrite>::empty();
        assert(uart_writes_after(ds, e) == uart_writes_after(seq![ud], e));
        assert(uart_writes_after(seq![ud], e) == uart_writes_after(
            Seq::<DeviceDriverDescriptor>::empty(),
            e + init_write_sequence(),
        ));
        assert(e + init_write_sequence() =~= init_write_sequence());
        assert(uart_state_after(ds, UartState::Uninitialized) == uart_state_after(
            seq![ud],
            UartState::Uninitialized,
        ));
        assert(uart_state_after(seq![ud], UartState::Uninitialized) == uart_state_after(
            Seq::<DeviceDriverDescriptor>::empty(),
            UartState::Ready,
        ));
        assert(uart_state_after(Seq::<DeviceDriverDescriptor>::empty(), UartState::Ready)
            == UartState::Ready);
        let chip = bsp::spec_chip_of(variant);
        let es = Seq::<GpioStep>::empty();
        assert(gpio_after(ds, chip, 0, es) == gpio_after(seq![ud], chip, 0, es));
        assert(gpio_after(seq![ud], chip, 0, es) == gpio_after(
            Seq::<DeviceDriverDescriptor>::empty(),
            chip,
            spec_fsel_14_15_alt0(0),
            es + map_pl011_uart_sequence(chip, 0),
        ));
        assert(es + map_pl011_uart_sequence(chip, 0) =~= map_pl011_uart_sequence(chip, 0));
    }

    // Printing is usable from here on: the UART becomes the system console,
    // replacing the fallback console the slot starts out with.
    let mut cur_console: NullLock<Console> = NullLock::new(Console::Null(NullConsole::new()));
    register_console(&mut cur_console, bsp::console::console(uart));

    Ok((mgr, gpio, cur_console))
}

/// Receive a second-stage binary over the console and return the address to
/// transfer execution to.
///
/// `transfer` holds the bytes the host sends once it has seen the ready
/// signal: the 4-byte length, then the payload. The model injects them into
/// the console's receive queue at exactly that point of the protocol; bytes
/// already queued before the call are the stray noise the protocol
/// discards. `load_region` is the memory at the board's load address: the
/// payload's bytes are stored byte-exact at consecutive offsets from its
/// start, growing the region if it is shorter than the payload and leaving
/// any bytes beyond the payload as they were.
///
/// The caller — the embedding program — reinterprets the returned address
/// as the received binary's entry point; that jump never returns and is the
/// caller's own, unverifiable step.
pub fn kernel_main(console: &mut Console, transfer: &Vec<u8>, load_region: &mut Vec<u8>) -> (r:
    usize)
    requires
        (*old(console)) is Uart,
        transfer@.len() >= 4,
        4 + declared_load_size(transfer@) <= transfer@.len(),
        old(console).uart_device().chars_written + 5 <= usize::MAX,
        old(console).uart_device().chars_read + old(console).uart_device().rx_fifo@.len()
            + transfer@.len() <= usize::MAX,
    ensures
        r == BOARD_DEFAULT_LOAD_ADDRESS,
        (*final(console)) is Uart,
        final(console).uart_device().tx_wire@ == old(console).uart_device().tx_wire@ + seq![
            3u8,
            3u8,
            3u8,
            79u8,
            75u8,
        ],
        ({
            let size = declared_load_size(transfer@);
            &&& final(load_region)@.len() == (if old(load_region)@.len() >= size {
                old(load_region)@.len() as int
            } else {
                size
            })
            &&& forall|i: int|
                0 <= i < size ==> final(load_region)@[i] == transfer@[4 + i]
            &&& forall|i: int|
                size <= i < old(load_region)@.len() ==> final(load_region)@[i] == old(
                    load_region,
                )@[i]
        }),
        final(console).uart_device().rx_fifo@ == transfer@.skip(
            4 + declared_load_size(transfer@),
        ),
        final(console).uart_device().chars_read == old(console).uart_device().chars_read + old(
            console,
        ).uart_device().rx_fifo@.len() + 4 + declared_load_size(transfer@),
        final(console).uart_device().chars_written == old(console).uart_device().chars_written + 5,
        final(console).uart_device().state == old(console).uart_device().state,
        final(console).uart_device().mmio_writes == old(console).uart_device().mmio_writes,
        final(console).uart_device().registers == old(console).uart_device().registers,
{
    // Discard any spurious received characters before starting with the
    // transfer.
    console.clear_rx();

    // Notify the host tool that it can send the binary: three ETX bytes.
    console.write_char(3u8 as char);
    console.write_char(3u8 as char);
    console.write_char(3u8 as char);

    // The host has seen the ready signal: the length-prefixed binary
    // arrives on the receive wire.
    console.receive_bytes(transfer);
    proof {
        assert(Seq::<u8>::empty() + transfer@ =~= transfer@);
        assert(transfer@.drop_first() =~= transfer@.skip(1));
        assert(transfer@.skip(1).drop_first() =~= transfer@.skip(2));
        assert(transfer@.skip(2).drop_first() =~= transfer@.skip(3));
        assert(transfer@.skip(3).drop_first() =~= transfer@.skip(4));
        assert(transfer@.skip(1)[0] == transfer@[1]);
        assert(transfer@.skip(2)[0] == transfer@[2]);
        assert(transfer@.skip(3)[0] == transfer@[3]);
    }

    // Read the binary's size: four raw bytes, combined little-endian.
    let b0: u32 = console.read_byte() as u32;
    let b1: u32 = console.read_byte() as u32;
    let b2: u32 = console.read_byte() as u32;
    let b3: u32 = console.read_byte() as u32;
    let size: u32 = b0 | (b1 << 8) | (b2 << 16) | (b3 << 24);
    assert(b0 | (b1 << 8) | (b2 << 16) | (b3 << 24) == b0 + b1 * 0x100 + b2 * 0x1_0000 + b3
        * 0x100_0000) by (bit_vector)
        requires
            b0 < 0x100 && b1 < 0x100 && b2 < 0x100 && b3 < 0x100;
    assert(size == declared_load_size(transfer@));

    // Trust it's not too big, and acknowledge.
    console.write_char('O');
    console.write_char('K');

    let ghost mid_console = console.uart_device();
    let ghost mid_region = load_region@;

    // Read the binary byte by byte into consecutive offsets of the load
    // region.
    let mut i: usize = 0;
    while (i as u32) < size
        invariant
            (*console) is Uart,
            i <= size,
            transfer@.len() >= 4 + size,
            console.uart_device().rx_fifo@ == transfer@.skip(4 + i),
            console.uart_device().chars_read == mid_console.chars_read + i,
            console.uart_device().chars_read + console.uart_device().rx_fifo@.len() <= usize::MAX,
            console.uart_device().same_but_rx(&mid_console),
            load_region@.len() == (if mid_region.len() >= i {
                mid_region.len() as int
            } else {
                i as int
            }),
            forall|j: int| 0 <= j < i ==> load_region@[j] == transfer@[4 + j],
            forall|j: int| i <= j < mid_region.len() ==> load_region@[j] == mid_region[j],
        decreases size - i,
    {
        proof {
            assert(transfer@.skip(4 + i)[0] == transfer@[4 + i]);
            assert(transfer@.skip(4 + i).drop_first() =~= transfer@.skip(4 + i + 1));
        }
        let b = console.read_byte();
        if i < load_region.len() {
            load_region[i] = b;
        } else {
            load_region.push(b);
        }
        i = i + 1;
    }

    console.flush();

    // The board's firmware load address is where the binary now lives; the
    // caller jumps there.
    bsp::memory::board_default_load_addr()
}

} // verus!
