use miniload::bsp::BoardVariant;
use miniload::driver::{
    ConfigurationError, DeviceDriver, DeviceDriverDescriptor, DeviceKind, DriverManager,
    PostInitCallback, NUM_DRIVERS,
};
use miniload::gpio::{BcmChip, GpioReg, GpioStep, GPIO};
use miniload::uart::{PL011Uart, UartState};

fn gpio_descriptor() -> DeviceDriverDescriptor {
    DeviceDriverDescriptor::new(DeviceKind::Gpio, None)
}

fn uart_descriptor() -> DeviceDriverDescriptor {
    DeviceDriverDescriptor::new(DeviceKind::Pl011Uart, Some(PostInitCallback::MapPl011Uart))
}

/// For a sequence of registrations within capacity, `init_drivers` invokes
/// each driver's init in exactly the order registered, and `enumerate`
/// lists the same order, 1-indexed.
#[test]
fn init_and_enumeration_follow_registration_order() {
    let mut mgr = DriverManager::new();
    mgr.register_driver(gpio_descriptor()).unwrap();
    mgr.register_driver(uart_descriptor()).unwrap();
    mgr.register_driver(gpio_descriptor()).unwrap();

    let mut gpio = GPIO::new(0x3F20_0000, BcmChip::Bcm2837);
    let mut uart = PL011Uart::new(0x3F20_1000);
    let log = mgr.init_drivers(&mut gpio, &mut uart).unwrap();
    assert_eq!(log, vec!["BCM GPIO", "BCM PL011 UART", "BCM GPIO"]);

    let listing = mgr.enumerate();
    assert_eq!(
        listing,
        vec![(1, "BCM GPIO"), (2, "BCM PL011 UART"), (3, "BCM GPIO")]
    );
}

/// Registering more drivers than the fixed capacity is a fatal
/// configuration error — nothing is silently dropped or overwritten.
#[test]
fn registering_beyond_capacity_is_a_fatal_error() {
    let mut mgr = DriverManager::new();
    for _ in 0..NUM_DRIVERS {
        assert!(mgr.register_driver(gpio_descriptor()).is_ok());
    }
    assert_eq!(mgr.num_registered(), NUM_DRIVERS);
    assert_eq!(
        mgr.register_driver(uart_descriptor()),
        Err(ConfigurationError::CapacityExceeded { name: "BCM PL011 UART" })
    );
    // The over-capacity descriptor neither replaced nor joined the others.
    assert_eq!(mgr.num_registered(), NUM_DRIVERS);
    for (_, name) in mgr.enumerate() {
        assert_eq!(name, "BCM GPIO");
    }
}

#[test]
fn init_drivers_runs_the_uart_power_on_and_the_pin_mapping() {
    let mut mgr = DriverManager::new();
    mgr.register_driver(gpio_descriptor()).unwrap();
    mgr.register_driver(uart_descriptor()).unwrap();

    let mut gpio = GPIO::new(0x3F20_0000, BcmChip::Bcm2837);
    let mut uart = PL011Uart::new(0x3F20_1000);
    mgr.init_drivers(&mut gpio, &mut uart).unwrap();

    let mut gpio_probe = miniload::gpio::GPIOInner::new(0x3F20_0000, BcmChip::Bcm2837);
    gpio_probe.map_pl011_uart();
    // The registry's callback produced exactly one pin-mapping sequence.
    assert_eq!(gpio_probe.steps.len(), 7);
}

#[test]
fn enumerate_on_an_empty_registry_lists_nothing() {
    let mgr = DriverManager::new();
    assert_eq!(mgr.enumerate(), vec![]);
}

#[test]
fn pin_mapping_sequence_on_the_older_chip() {
    let mut gpio = miniload::gpio::GPIOInner::new(0x3F20_0000, BcmChip::Bcm2837);
    gpio.map_pl011_uart();
    let expected = vec![
        GpioStep::Write { reg: GpioReg::Gpfsel1, value: (0b100 << 12) | (0b100 << 15) },
        GpioStep::Write { reg: GpioReg::Gppud, value: 0 },
        GpioStep::Spin { cycles: 2000 },
        GpioStep::Write { reg: GpioReg::Gppudclk0, value: (1 << 14) | (1 << 15) },
        GpioStep::Spin { cycles: 2000 },
        GpioStep::Write { reg: GpioReg::Gppud, value: 0 },
        GpioStep::Write { reg: GpioReg::Gppudclk0, value: 0 },
    ];
    assert_eq!(gpio.steps, expected);
    assert_eq!(gpio.gpfsel1, (0b100 << 12) | (0b100 << 15));
}

#[test]
fn pin_mapping_sequence_on_the_newer_chip() {
    let mut gpio = miniload::gpio::GPIOInner::new(0xFE20_0000, BcmChip::Bcm2711);
    gpio.map_pl011_uart();
    let expected = vec![
        GpioStep::Write { reg: GpioReg::Gpfsel1, value: (0b100 << 12) | (0b100 << 15) },
        GpioStep::Write { reg: GpioReg::PupPdnCntrl0, value: (0b01 << 28) | (0b01 << 30) },
    ];
    assert_eq!(gpio.steps, expected);
}

#[test]
fn pin_mapping_preserves_other_pins_function_select() {
    let mut gpio = miniload::gpio::GPIOInner::new(0xFE20_0000, BcmChip::Bcm2711);
    gpio.gpfsel1 = 0b001; // pin 10 configured as output
    gpio.map_pl011_uart();
    assert_eq!(gpio.gpfsel1, 0b001 | (0b100 << 12) | (0b100 << 15));
}

#[test]
fn board_names_and_chips() {
    assert_eq!(miniload::bsp::board_name(BoardVariant::RaspberryPi3), "Raspberry Pi 3");
    assert_eq!(miniload::bsp::board_name(BoardVariant::RaspberryPi4), "Raspberry Pi 4");
    assert_eq!(miniload::bsp::chip_of(BoardVariant::RaspberryPi3), BcmChip::Bcm2837);
    assert_eq!(miniload::bsp::chip_of(BoardVariant::RaspberryPi4), BcmChip::Bcm2711);
}

#[test]
fn kernel_init_brings_the_uart_console_up() {
    let (mgr, _gpio, mut cur_console) =
        miniload::kernel::kernel_init(BoardVariant::RaspberryPi3).unwrap();
    assert_eq!(
        mgr.enumerate(),
        vec![(1, "BCM GPIO"), (2, "BCM PL011 UART")]
    );
    let console = miniload::console::console(&mut cur_console);
    assert_eq!(console.chars_written(), 0);
    assert_eq!(console.chars_read(), 0);
    match console {
        miniload::console::Console::Uart(uart) => {
            assert_eq!(uart.tx_wire().len(), 0);
        }
        miniload::console::Console::Null(_) => panic!("the UART must be the console"),
    }
}

/// The state after `kernel_init` matches what the two devices do when
/// driven by hand in the registered order.
#[test]
fn kernel_init_state_matches_manual_bring_up() {
    let mut by_hand = miniload::uart::PL011UartInner::new(0xFE20_1000);
    by_hand.init();
    assert_eq!(by_hand.state, UartState::Ready);
    assert_eq!(by_hand.chars_written, 0);
    assert_eq!(by_hand.chars_read, 0);
}

#[test]
fn device_drivers_identify_themselves() {
    let mut gpio = GPIO::new(0x3F20_0000, BcmChip::Bcm2837);
    let mut uart = PL011Uart::new(0x3F20_1000);
    assert_eq!(DeviceDriver::compatible(&gpio), GPIO::COMPATIBLE);
    assert_eq!(DeviceDriver::compatible(&uart), PL011Uart::COMPATIBLE);
    assert!(DeviceDriver::init(&mut gpio).is_ok());
    assert!(DeviceDriver::init(&mut uart).is_ok());
}

#[test]
fn kind_names_match_the_compatibility_strings() {
    assert_eq!(miniload::driver::kind_name(DeviceKind::Gpio), "BCM GPIO");
    assert_eq!(miniload::driver::kind_name(DeviceKind::Pl011Uart), "BCM PL011 UART");
}
