//! Top-level board support for the two Raspberry Pi variants.

use vstd::prelude::*;
use crate::gpio::BcmChip;

pub mod console;
pub mod driver;
pub mod memory;

verus! {

/// The board the kernel runs on: an explicit value handed to every
/// board-specific function, where a firmware build would fix it once at
/// compile time.
#[derive(Clone, Copy, PartialEq, Eq, Structural, Debug)]
pub enum BoardVariant {
    RaspberryPi3,
    RaspberryPi4,
}

/// The GPIO chip a board variant carries.
pub open spec fn spec_chip_of(variant: BoardVariant) -> BcmChip {
    match variant {
        BoardVariant::RaspberryPi3 => BcmChip::Bcm2837,
        BoardVariant::RaspberryPi4 => BcmChip::Bcm2711,
    }
}

/// The GPIO chip a board variant carries.
pub fn chip_of(variant: BoardVariant) -> (r: BcmChip)
    ensures
        r == spec_chip_of(variant),
{
    match variant {
        BoardVariant::RaspberryPi3 => BcmChip::Bcm2837,
        BoardVariant::RaspberryPi4 => BcmChip::Bcm2711,
    }
}

/// Board identification string.
pub open spec fn spec_board_name(variant: BoardVariant) -> Seq<char> {
    match variant {
        BoardVariant::RaspberryPi3 => "Raspberry Pi 3"@,
        BoardVariant::RaspberryPi4 => "Raspberry Pi 4"@,
    }
}

/// Board identification.
pub fn board_name(variant: BoardVariant) -> (r: &'static str)
    ensures
        r@ == spec_board_name(variant),
{
    match variant {
        BoardVariant::RaspberryPi3 => "Raspberry Pi 3",
        BoardVariant::RaspberryPi4 => "Raspberry Pi 4",
    }
}

} // verus!
