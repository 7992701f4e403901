//! Driver bring-up and serial bootstrap subsystem of a minimal kernel.
//!
//! The crate models the register-level hardware interface of a small board
//! (a GPIO block and a PL011-compatible UART) as explicit data: register
//! writes become entries of a write trace, and the serial FIFOs become byte
//! queues. On top of that model sit the verified pieces: a fixed-capacity
//! device-driver registry that orders initialization, the UART power-on
//! sequencing and character I/O with running counters, a swappable console
//! indirection, and the chainloader wire protocol that receives a
//! length-prefixed binary and hands back the address to jump to.
//!
//! Real memory-mapped I/O, the busy-spin primitives and the final jump into
//! a loaded binary live with the embedding program; the library states what
//! must be written where and in which order, and proves that its logic does
//! exactly that.

pub mod bsp;
pub mod console;
pub mod driver;
pub mod gpio;
pub mod kernel;
pub mod memory;
pub mod mmio;
pub mod synchronization;
pub mod uart;
