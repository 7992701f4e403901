//! GPIO driver over a modeled register block.
//!
//! What the hardware sees is modeled as the exact sequence of register
//! writes and interleaved busy-waits the driver performs. The datasheet
//! prescribes the order of the pull-latch sequence on the older chip —
//! control write, delay, clock assert, delay, control write, clock clear —
//! and the contracts here pin that order down write for write.

use vstd::prelude::*;
use crate::mmio::MMIODerefWrapper;
use crate::synchronization::{Mutex, NullLock};

verus! {

/// Function-select field width is 3 bits per pin; pins 14 and 15 live in
/// function-select register 1 at bits 12 and 15.
pub const GPFSEL1_FSEL_14_15_MASK: u32 = (0b111u32 << 12) | (0b111u32 << 15);

/// Alternate function 0 (encoding 0b100) for pins 14 and 15: PL011 UART TX
/// and RX.
pub const GPFSEL1_FSEL_14_15_ALT0: u32 = (0b100u32 << 12) | (0b100u32 << 15);

/// Pull control encoding "pull disabled" of the shared control register on
/// the older chip.
pub const GPPUD_PULL_OFF: u32 = 0;

/// Clock-latch bits of pins 14 and 15 on the older chip.
pub const GPPUDCLK0_ASSERT_14_15: u32 = (1u32 << 14) | (1u32 << 15);

/// Pull-up encoding (0b01) of the 2-bit per-pin fields of pins 14 and 15 on
/// the newer chip, at bits 28 and 30.
pub const GPIO_PUP_PDN_PULLUP_14_15: u32 = (0b01u32 << 28) | (0b01u32 << 30);

/// Empirically chosen delay between the latch steps on the older chip:
/// 2000 cycles approximates the 1 µs the datasheet sequence asks for on a
/// core clock in the 1–2 GHz range.
pub const PULL_LATCH_DELAY_CYCLES: usize = 2000;

/// Byte offsets of the registers inside the GPIO block.
pub const GPFSEL1_OFFSET: usize = 0x04;

pub const GPPUD_OFFSET: usize = 0x94;

pub const GPPUDCLK0_OFFSET: usize = 0x98;

pub const GPIO_PUP_PDN_CNTRL_REG0_OFFSET: usize = 0xE4;

/// Marker for the GPIO register block layout, addressed through
/// [`MMIODerefWrapper`]; the `*_OFFSET` constants give each register's byte
/// offset from the block's base address.
pub struct RegisterBlock;

/// The two chip variants the driver knows how to program.
#[derive(Clone, Copy, PartialEq, Eq, Structural, Debug)]
pub enum BcmChip {
    /// The older chip: pull configuration takes the latch sequence.
    Bcm2837,
    /// The newer chip: pull configuration is one direct register write.
    Bcm2711,
}

/// Registers of the GPIO block that the driver touches.
#[derive(Clone, Copy, PartialEq, Eq, Structural, Debug)]
pub enum GpioReg {
    /// Function select 1 (pins 10–19), read-modify-write.
    Gpfsel1,
    /// Shared pull-up/pull-down control (older chip).
    Gppud,
    /// Per-pin pull clock latch (older chip).
    Gppudclk0,
    /// Per-pin 2-bit pull control (newer chip).
    PupPdnCntrl0,
}

/// One observable step at the hardware boundary: a register write, or a
/// busy-wait separating two writes.
#[derive(Clone, Copy, PartialEq, Eq, Structural, Debug)]
pub enum GpioStep {
    /// A 32-bit value is written to a register.
    Write { reg: GpioReg, value: u32 },
    /// The processor spins for `cycles` cycles before the next step.
    Spin { cycles: usize },
}

/// The function-select word after pins 14 and 15 are switched to alternate
/// function 0, all other pins untouched.
pub open spec fn spec_fsel_14_15_alt0(v: u32) -> u32 {
    (v & !GPFSEL1_FSEL_14_15_MASK) | GPFSEL1_FSEL_14_15_ALT0
}

/// The datasheet sequence that latches "pull disabled" into pins 14 and 15
/// on the older chip. The order is mandatory: control write, delay, clock
/// assert, delay, control write, clock clear — reordering it leaves the
/// pull configuration unlatched.
pub open spec fn pull_latch_sequence() -> Seq<GpioStep> {
    seq![
        GpioStep::Write { reg: GpioReg::Gppud, value: GPPUD_PULL_OFF },
        GpioStep::Spin { cycles: PULL_LATCH_DELAY_CYCLES },
        GpioStep::Write { reg: GpioReg::Gppudclk0, value: GPPUDCLK0_ASSERT_14_15 },
        GpioStep::Spin { cycles: PULL_LATCH_DELAY_CYCLES },
        GpioStep::Write { reg: GpioReg::Gppud, value: GPPUD_PULL_OFF },
        GpioStep::Write { reg: GpioReg::Gppudclk0, value: 0 },
    ]
}

/// The single direct write that configures the pulls of pins 14 and 15 on
/// the newer chip.
pub open spec fn pull_direct_sequence() -> Seq<GpioStep> {
    seq![
        GpioStep::Write { reg: GpioReg::PupPdnCntrl0, value: GPIO_PUP_PDN_PULLUP_14_15 },
    ]
}

/// Everything `map_pl011_uart` puts on the hardware boundary: the
/// function-select update first, then the chip-specific pull configuration.
pub open spec fn map_pl011_uart_sequence(chip: BcmChip, old_gpfsel1: u32) -> Seq<GpioStep> {
    seq![
        GpioStep::Write { reg: GpioReg::Gpfsel1, value: spec_fsel_14_15_alt0(old_gpfsel1) },
    ] + match chip {
        BcmChip::Bcm2837 => pull_latch_sequence(),
        BcmChip::Bcm2711 => pull_direct_sequence(),
    }
}

/// The part of the GPIO hardware abstraction that the serialization lock
/// protects.
pub struct GPIOInner {
    pub registers: MMIODerefWrapper<RegisterBlock>,
    pub chip: BcmChip,
    /// Shadow of the read-modify-write function-select register.
    pub gpfsel1: u32,
    /// Model of the hardware boundary: every register write and busy-wait,
    /// in program order.
    pub steps: Vec<GpioStep>,
}

impl GPIOInner {
    /// The base address of the register block.
    pub open spec fn spec_mmio_start(&self) -> usize {
        self.registers.spec_start_addr()
    }

    /// Create an instance for the register block at `mmio_start_addr`.
    ///
    /// The caller vouches that the address is the base of a valid GPIO MMIO
    /// region of the given chip.
    pub fn new(mmio_start_addr: usize, chip: BcmChip) -> (r: Self)
        ensures
            r.spec_mmio_start() == mmio_start_addr,
            r.chip == chip,
            r.gpfsel1 == 0,
            r.steps@ == Seq::<GpioStep>::empty(),
    {
        GPIOInner {
            registers: MMIODerefWrapper::new(mmio_start_addr),
            chip,
            gpfsel1: 0,
            steps: Vec::new(),
        }
    }

    /// Disable pull-up/pull-down on pins 14 and 15 of the older chip, using
    /// the datasheet's latch sequence with its mandatory ordering.
    fn disable_pud_14_15_bcm2837(&mut self)
        ensures
            final(self).steps@ == old(self).steps@ + pull_latch_sequence(),
            final(self).gpfsel1 == old(self).gpfsel1,
            final(self).chip == old(self).chip,
            final(self).registers == old(self).registers,
    {
        // Make an educated guess for a good delay value (Sequence described
        // in the BCM2837 peripherals PDF). The Linux 2837 GPIO driver waits
        // 1 µs between the steps; 2000 cycles covers that for a core clock
        // of up to 2 GHz.
        self.push_step(GpioStep::Write { reg: GpioReg::Gppud, value: GPPUD_PULL_OFF });
        self.push_step(GpioStep::Spin { cycles: PULL_LATCH_DELAY_CYCLES });
        self.push_step(
            GpioStep::Write { reg: GpioReg::Gppudclk0, value: GPPUDCLK0_ASSERT_14_15 },
        );
        self.push_step(GpioStep::Spin { cycles: PULL_LATCH_DELAY_CYCLES });
        self.push_step(GpioStep::Write { reg: GpioReg::Gppud, value: GPPUD_PULL_OFF });
        self.push_step(GpioStep::Write { reg: GpioReg::Gppudclk0, value: 0 });
        assert(self.steps@ =~= old(self).steps@ + pull_latch_sequence());
    }

    /// Configure the pulls of pins 14 and 15 on the newer chip: one direct
    /// write of the per-pin 2-bit fields, no latch dance required.
    fn disable_pud_14_15_bcm2711(&mut self)
        ensures
            final(self).steps@ == old(self).steps@ + pull_direct_sequence(),
            final(self).gpfsel1 == old(self).gpfsel1,
            final(self).chip == old(self).chip,
            final(self).registers == old(self).registers,
    {
        self.push_step(
            GpioStep::Write { reg: GpioReg::PupPdnCntrl0, value: GPIO_PUP_PDN_PULLUP_14_15 },
        );
        assert(self.steps@ =~= old(self).steps@ + pull_direct_sequence());
    }

    /// Map the PL011 UART as standard output: TX to pin 14, RX to pin 15,
    /// then configure the pins' pull resistors per chip variant.
    pub fn map_pl011_uart(&mut self)
        ensures
            final(self).steps@ == old(self).steps@ + map_pl011_uart_sequence(
                old(self).chip,
                old(self).gpfsel1,
            ),
            final(self).gpfsel1 == spec_fsel_14_15_alt0(old(self).gpfsel1),
            final(self).chip == old(self).chip,
            final(self).registers == old(self).registers,
    {
        // Select the UART alternate function on pins 14 and 15: a
        // read-modify-write that leaves every other pin's field alone.
        let updated: u32 = (self.gpfsel1 & !GPFSEL1_FSEL_14_15_MASK) | GPFSEL1_FSEL_14_15_ALT0;
        self.push_step(GpioStep::Write { reg: GpioReg::Gpfsel1, value: updated });
        self.gpfsel1 = updated;

        // Disable pull-up/pull-down on pins 14 and 15.
        match self.chip {
            BcmChip::Bcm2837 => self.disable_pud_14_15_bcm2837(),
            BcmChip::Bcm2711 => self.disable_pud_14_15_bcm2711(),
        }
        assert(self.steps@ =~= old(self).steps@ + map_pl011_uart_sequence(
            old(self).chip,
            old(self).gpfsel1,
        ));
    }

    fn push_step(&mut self, step: GpioStep)
        ensures
            final(self).steps@ == old(self).steps@.push(step),
            final(self).gpfsel1 == old(self).gpfsel1,
            final(self).chip == old(self).chip,
            final(self).registers == old(self).registers,
    {
        self.steps.push(step);
    }
}

/// Representation of the GPIO hardware.
pub struct GPIO {
    inner: NullLock<GPIOInner>,
}

impl GPIO {
    /// Compatibility string identifying the device.
    pub const COMPATIBLE: &'static str = "BCM GPIO";

    /// The locked driver state, for use in contracts.
    pub closed spec fn device(&self) -> GPIOInner {
        self.inner.spec_data()
    }

    /// Create an instance for the register block at `mmio_start_addr`.
    ///
    /// The caller vouches that the address is the base of a valid GPIO MMIO
    /// region of the given chip.
    pub fn new(mmio_start_addr: usize, chip: BcmChip) -> (r: Self)
        ensures
            r.device().spec_mmio_start() == mmio_start_addr,
            r.device().chip == chip,
            r.device().gpfsel1 == 0,
            r.device().steps@ == Seq::<GpioStep>::empty(),
    {
        GPIO { inner: NullLock::new(GPIOInner::new(mmio_start_addr, chip)) }
    }

    /// Concurrency-safe version of [`GPIOInner::map_pl011_uart`].
    pub fn map_pl011_uart(&mut self)
        ensures
            final(self).device().steps@ == old(self).device().steps@ + map_pl011_uart_sequence(
                old(self).device().chip,
                old(self).device().gpfsel1,
            ),
            final(self).device().gpfsel1 == spec_fsel_14_15_alt0(old(self).device().gpfsel1),
            final(self).device().chip == old(self).device().chip,
            final(self).device().registers == old(self).device().registers,
    {
        self.inner.lock().map_pl011_uart()
    }
}

} // verus!
