//! BSP memory management: the board's physical memory map and the BSS range
//! handed over by the linker.

use vstd::prelude::*;
use crate::bsp::BoardVariant;

verus! {

/// The address where the board's firmware loads every binary by default.
pub const BOARD_DEFAULT_LOAD_ADDRESS: usize = 0x8_0000;

/// Offset of the GPIO block inside the MMIO region.
pub const GPIO_OFFSET: usize = 0x0020_0000;

/// Offset of the PL011 UART inside the MMIO region.
pub const UART_OFFSET: usize = 0x0020_1000;

/// Start of the memory-mapped I/O region of the board's physical devices.
pub open spec fn spec_mmio_start(variant: BoardVariant) -> usize {
    match variant {
        BoardVariant::RaspberryPi3 => 0x3F00_0000,
        BoardVariant::RaspberryPi4 => 0xFE00_0000,
    }
}

/// Base address of the board's GPIO register block.
pub open spec fn spec_gpio_mmio_start(variant: BoardVariant) -> usize {
    (spec_mmio_start(variant) + GPIO_OFFSET) as usize
}

/// Base address of the board's PL011 UART register block.
pub open spec fn spec_pl011_uart_mmio_start(variant: BoardVariant) -> usize {
    (spec_mmio_start(variant) + UART_OFFSET) as usize
}

/// Start of the memory-mapped I/O region of the board's physical devices.
pub fn mmio_start(variant: BoardVariant) -> (r: usize)
    ensures
        r == spec_mmio_start(variant),
{
    match variant {
        BoardVariant::RaspberryPi3 => 0x3F00_0000,
        BoardVariant::RaspberryPi4 => 0xFE00_0000,
    }
}

/// Base address of the board's GPIO register block.
pub fn gpio_mmio_start(variant: BoardVariant) -> (r: usize)
    ensures
        r == spec_gpio_mmio_start(variant),
{
    mmio_start(variant) + GPIO_OFFSET
}

/// Base address of the board's PL011 UART register block.
pub fn pl011_uart_mmio_start(variant: BoardVariant) -> (r: usize)
    ensures
        r == spec_pl011_uart_mmio_start(variant),
{
    mmio_start(variant) + UART_OFFSET
}

/// The address the board's firmware loads all binaries to by default.
pub fn board_default_load_addr() -> (r: usize)
    ensures
        r == BOARD_DEFAULT_LOAD_ADDRESS,
{
    BOARD_DEFAULT_LOAD_ADDRESS
}

/// The inclusive address range of the BSS section: non-empty, with both
/// bounds aligned to the zeroed word size.
#[derive(Clone, Copy, PartialEq, Eq, Structural, Debug)]
pub struct BssRange {
    pub start: usize,
    pub end_inclusive: usize,
}

impl BssRange {
    /// The range's invariant: it holds at least one word-aligned word.
    pub open spec fn wf(&self) -> bool {
        &&& self.start <= self.end_inclusive
        &&& self.start % 8 == 0
        &&& self.end_inclusive % 8 == 0
    }
}

/// Return the inclusive range spanning the BSS section.
///
/// The two addresses come from linker-provided boundary symbols and are
/// trusted as given; the linker script must hand out a non-empty range of
/// word-aligned addresses, which is what the precondition states.
pub fn bss_range_inclusive(start: usize, end_inclusive: usize) -> (r: BssRange)
    requires
        start <= end_inclusive,
        start % 8 == 0,
        end_inclusive % 8 == 0,
    ensures
        r.start == start,
        r.end_inclusive == end_inclusive,
        r.wf(),
{
    BssRange { start, end_inclusive }
}

} // verus!
