use miniload::bsp::memory::{
    board_default_load_addr, bss_range_inclusive, gpio_mmio_start, mmio_start,
    pl011_uart_mmio_start, BOARD_DEFAULT_LOAD_ADDRESS,
};
use miniload::bsp::BoardVariant;
use miniload::memory::zero_volatile;
use miniload::mmio::MMIODerefWrapper;
use miniload::uart::RegisterBlock;

#[test]
fn board_memory_map() {
    assert_eq!(mmio_start(BoardVariant::RaspberryPi3), 0x3F00_0000);
    assert_eq!(mmio_start(BoardVariant::RaspberryPi4), 0xFE00_0000);
    assert_eq!(gpio_mmio_start(BoardVariant::RaspberryPi3), 0x3F20_0000);
    assert_eq!(gpio_mmio_start(BoardVariant::RaspberryPi4), 0xFE20_0000);
    assert_eq!(pl011_uart_mmio_start(BoardVariant::RaspberryPi3), 0x3F20_1000);
    assert_eq!(pl011_uart_mmio_start(BoardVariant::RaspberryPi4), 0xFE20_1000);
}

#[test]
fn default_load_address() {
    assert_eq!(board_default_load_addr(), 0x8_0000);
    assert_eq!(BOARD_DEFAULT_LOAD_ADDRESS, 0x8_0000);
}

#[test]
fn bss_range_keeps_its_bounds() {
    let range = bss_range_inclusive(0x1000, 0x1038);
    assert_eq!(range.start, 0x1000);
    assert_eq!(range.end_inclusive, 0x1038);
}

#[test]
fn bss_range_of_a_single_word() {
    let range = bss_range_inclusive(0x2000, 0x2000);
    assert_eq!(range.start, range.end_inclusive);
}

#[test]
fn zero_volatile_clears_every_word() {
    let mut words: Vec<u64> = vec![u64::MAX, 1, 0, 0xDEAD_BEEF];
    zero_volatile(&mut words);
    assert_eq!(words, vec![0, 0, 0, 0]);
}

#[test]
fn zero_volatile_on_an_empty_range_does_nothing() {
    let mut words: Vec<u64> = Vec::new();
    zero_volatile(&mut words);
    assert!(words.is_empty());
}

#[test]
fn mmio_wrapper_remembers_its_base_address() {
    let registers: MMIODerefWrapper<RegisterBlock> = MMIODerefWrapper::new(0x3F20_1000);
    assert_eq!(registers.start_addr(), 0x3F20_1000);
}
