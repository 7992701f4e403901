//! Driver support: a fixed-capacity registry that owns the global device
//! initialization sequence.
//!
//! Registration order is initialization order. The registry's capacity is
//! fixed at build time; exceeding it is a fatal configuration error, never a
//! silent drop or overwrite. The set of drivers a board can carry is closed,
//! so the descriptor names its driver by kind and its optional post-init
//! callback by variant, and `init_drivers` dispatches explicitly.

use vstd::prelude::*;
use crate::gpio::{map_pl011_uart_sequence, spec_fsel_14_15_alt0, BcmChip, GpioStep, GPIO};
use crate::uart::{init_write_sequence, RegWrite, UartState, PL011Uart};

verus! {

/// Capacity of the driver registry.
pub const NUM_DRIVERS: usize = 5;

/// Device driver functions.
pub trait DeviceDriver {
    /// Return a compatibility string for identifying the driver.
    fn compatible(&self) -> &'static str;

    /// Called by the kernel to bring up the device.
    fn init(&mut self) -> Result<(), &'static str>;
}

/// The closed set of drivers a board instantiates.
#[derive(Clone, Copy, PartialEq, Eq, Structural, Debug)]
pub enum DeviceKind {
    Gpio,
    Pl011Uart,
}

/// The closed set of post-init callbacks a descriptor can carry.
#[derive(Clone, Copy, PartialEq, Eq, Structural, Debug)]
pub enum PostInitCallback {
    /// Configure the PL011's output pins, to run once the drivers it
    /// depends on are online.
    MapPl011Uart,
}

/// A descriptor for device drivers: which driver, and an optional callback
/// to run right after its init. Immutable once created.
#[derive(Clone, Copy, PartialEq, Eq, Structural, Debug)]
pub struct DeviceDriverDescriptor {
    pub kind: DeviceKind,
    pub post_init_callback: Option<PostInitCallback>,
}

impl DeviceDriverDescriptor {
    /// Create an instance.
    pub fn new(kind: DeviceKind, post_init_callback: Option<PostInitCallback>) -> (r: Self)
        ensures
            r.kind == kind,
            r.post_init_callback == post_init_callback,
    {
        DeviceDriverDescriptor { kind, post_init_callback }
    }
}

/// Fatal configuration errors: each is reported to the caller, which halts
/// the system — there is no unwinding and no retry.
#[derive(Clone, Copy, PartialEq, Eq, Debug)]
pub enum ConfigurationError {
    /// More drivers were registered than the registry can hold; the
    /// driver that did not fit is identified by name.
    CapacityExceeded { name: &'static str },
    /// A driver's init failed; the offending driver is identified by name.
    DriverInit { name: &'static str, msg: &'static str },
    /// A post-init callback failed; the offending driver is identified by
    /// name.
    PostInitCallback { name: &'static str, msg: &'static str },
}

/// The identifying name of a driver kind.
pub open spec fn spec_kind_name(kind: DeviceKind) -> Seq<char> {
    match kind {
        DeviceKind::Gpio => "BCM GPIO"@,
        DeviceKind::Pl011Uart => "BCM PL011 UART"@,
    }
}

/// The identifying name of a driver kind.
pub fn kind_name(kind: DeviceKind) -> (r: &'static str)
    ensures
        r@ == spec_kind_name(kind),
{
    match kind {
        DeviceKind::Gpio => "BCM GPIO",
        DeviceKind::Pl011Uart => "BCM PL011 UART",
    }
}

/// The UART control-path trace after the descriptors in `ds` are processed
/// in order, starting from trace `w`: each UART descriptor's init appends
/// one power-on write sequence.
pub open spec fn uart_writes_after(ds: Seq<DeviceDriverDescriptor>, w: Seq<RegWrite>) -> Seq<
    RegWrite,
>
    decreases ds.len(),
{
    if ds.len() == 0 {
        w
    } else {
        uart_writes_after(
            ds.drop_first(),
            if ds[0].kind is Pl011Uart {
                w + init_write_sequence()
            } else {
                w
            },
        )
    }
}

/// The UART power-on state after the descriptors in `ds` are processed in
/// order, starting from state `s`.
pub open spec fn uart_state_after(ds: Seq<DeviceDriverDescriptor>, s: UartState) -> UartState
    decreases ds.len(),
{
    if ds.len() == 0 {
        s
    } else {
        uart_state_after(
            ds.drop_first(),
            if ds[0].kind is Pl011Uart {
                UartState::Ready
            } else {
                s
            },
        )
    }
}

/// The GPIO state — function-select shadow and hardware-boundary trace —
/// after the descriptors in `ds` are processed in order: each descriptor
/// carrying the pin-mapping callback appends one mapping sequence.
pub open spec fn gpio_after(
    ds: Seq<DeviceDriverDescriptor>,
    chip: BcmChip,
    fsel: u32,
    steps: Seq<GpioStep>,
) -> (u32, Seq<GpioStep>)
    decreases ds.len(),
{
    if ds.len() == 0 {
        (fsel, steps)
    } else {
        match ds[0].post_init_callback {
            Some(PostInitCallback::MapPl011Uart) => gpio_after(
                ds.drop_first(),
                chip,
                spec_fsel_14_15_alt0(fsel),
                steps + map_pl011_uart_sequence(chip, fsel),
            ),
            None => gpio_after(ds.drop_first(), chip, fsel, steps),
        }
    }
}

/// Provides device driver management functions.
pub struct DriverManager {
    descriptors: Vec<DeviceDriverDescriptor>,
}

impl DriverManager {
    /// The registered descriptors, in registration order, for use in
    /// contracts.
    pub closed spec fn spec_descriptors(&self) -> Seq<DeviceDriverDescriptor> {
        self.descriptors@
    }

    /// The registry's invariant: it never holds more descriptors than its
    /// fixed capacity. `new` establishes it and every method preserves it.
    pub open spec fn wf(&self) -> bool {
        self.spec_descriptors().len() <= NUM_DRIVERS
    }

    /// Create an instance with no drivers registered.
    pub fn new() -> (r: Self)
        ensures
            r.spec_descriptors() == Seq::<DeviceDriverDescriptor>::empty(),
            r.wf(),
    {
        DriverManager { descriptors: Vec::new() }
    }

    /// How many drivers are registered.
    pub fn num_registered(&self) -> (r: usize)
        ensures
            r == self.spec_descriptors().len(),
    {
        self.descriptors.len()
    }

    /// Register a device driver with the kernel.
    ///
    /// The descriptor is appended at the next free slot, so registration
    /// order is initialization order. Registering more drivers than the
    /// fixed capacity is a fatal configuration error: nothing is dropped or
    /// overwritten, and the caller must halt.
    pub fn register_driver(&mut self, descriptor: DeviceDriverDescriptor) -> (r: Result<
        (),
        ConfigurationError,
    >)
        ensures
            old(self).wf() ==> final(self).wf(),
            old(self).spec_descriptors().len() < NUM_DRIVERS ==> {
                &&& r is Ok
                &&& final(self).spec_descriptors() == old(self).spec_descriptors().push(descriptor)
            },
            old(self).spec_descriptors().len() >= NUM_DRIVERS ==> {
                &&& (r matches Err(e) && e matches ConfigurationError::CapacityExceeded { name }
                    && name@ == spec_kind_name(descriptor.kind))
                &&& final(self).spec_descriptors() == old(self).spec_descriptors()
            },
    {
        if self.descriptors.len() < NUM_DRIVERS {
            self.descriptors.push(descriptor);
            Ok(())
        } else {
            Err(ConfigurationError::CapacityExceeded { name: kind_name(descriptor.kind) })
        }
    }

    /// Fully initialize all drivers, strictly in registration order.
    ///
    /// For each descriptor, the driver's own init runs first; a failure
    /// there is fatal and is reported with the driver's identifying name.
    /// On success the descriptor's post-init callback, if present, runs
    /// next, and a failure there is treated identically. The returned log
    /// lists the initialized drivers' names in invocation order.
    pub fn init_drivers(&self, gpio: &mut GPIO, uart: &mut PL011Uart) -> (r: Result<
        Vec<&'static str>,
        ConfigurationError,
    >)
        ensures
            r is Ok,
            ({
                let log = r->Ok_0;
                &&& log@.len() == self.spec_descriptors().len()
                &&& forall|j: int|
                    0 <= j < log@.len() ==> log@[j]@ == spec_kind_name(
                        self.spec_descriptors()[j].kind,
                    )
            }),
            final(uart).device().mmio_writes@ == uart_writes_after(
                self.spec_descriptors(),
                old(uart).device().mmio_writes@,
            ),
            final(uart).device().state == uart_state_after(
                self.spec_descriptors(),
                old(uart).device().state,
            ),
            final(uart).device().tx_wire == old(uart).device().tx_wire,
            final(uart).device().rx_fifo == old(uart).device().rx_fifo,
            final(uart).device().chars_written == old(uart).device().chars_written,
            final(uart).device().chars_read == old(uart).device().chars_read,
            final(uart).device().registers == old(uart).device().registers,
            ({
                let (fsel, steps) = gpio_after(
                    self.spec_descriptors(),
                    old(gpio).device().chip,
                    old(gpio).device().gpfsel1,
                    old(gpio).device().steps@,
                );
                &&& final(gpio).device().gpfsel1 == fsel
                &&& final(gpio).device().steps@ == steps
            }),
            final(gpio).device().chip == old(gpio).device().chip,
            final(gpio).device().registers == old(gpio).device().registers,
    {
        let ghost ds = self.descriptors@;
        proof {
            assert(ds.skip(0) =~= ds);
        }
        let mut log: Vec<&'static str> = Vec::new();
        let mut i: usize = 0;
        while i < self.descriptors.len()
            invariant
                i <= ds.len(),
                ds == self.descriptors@,
                log@.len() == i,
                forall|j: int| 0 <= j < i ==> log@[j]@ == spec_kind_name(ds[j].kind),
                uart_writes_after(ds.skip(i as int), uart.device().mmio_writes@)
                    == uart_writes_after(ds, old(uart).device().mmio_writes@),
                uart_state_after(ds.skip(i as int), uart.device().state) == uart_state_after(
                    ds,
                    old(uart).device().state,
                ),
                uart.device().tx_wire == old(uart).device().tx_wire,
                uart.device().rx_fifo == old(uart).device().rx_fifo,
                uart.device().chars_written == old(uart).device().chars_written,
                uart.device().chars_read == old(uart).device().chars_read,
                uart.device().registers == old(uart).device().registers,
                gpio_after(
                    ds.skip(i as int),
                    gpio.device().chip,
                    gpio.device().gpfsel1,
                    gpio.device().steps@,
                ) == gpio_after(
                    ds,
                    old(gpio).device().chip,
                    old(gpio).device().gpfsel1,
                    old(gpio).device().steps@,
                ),
                gpio.device().chip == old(gpio).device().chip,
                gpio.device().registers == old(gpio).device().registers,
            decreases ds.len() - i,
        {
            let descriptor = self.descriptors[i];
            proof {
                assert(ds.skip(i as int)[0] == ds[i as int]);
                assert(ds.skip(i as int).drop_first() =~= ds.skip(i as int + 1));
            }

            // 1. Initialize driver.
            let init_result: Result<(), &'static str> = match descriptor.kind {
                // The GPIO driver has no work to do in its init.
                DeviceKind::Gpio => Ok(()),
                DeviceKind::Pl011Uart => uart.init(),
            };
            if let Err(x) = init_result {
                return Err(
                    ConfigurationError::DriverInit { name: kind_name(descriptor.kind), msg: x },
                );
            }

            // 2. Call corresponding post init callback.
            if let Some(callback) = descriptor.post_init_callback {
                let callback_result: Result<(), &'static str> = match callback {
                    PostInitCallback::MapPl011Uart => {
                        gpio.map_pl011_uart();
                        Ok(())
                    },
                };
                if let Err(x) = callback_result {
                    return Err(
                        ConfigurationError::PostInitCallback {
                            name: kind_name(descriptor.kind),
                            msg: x,
                        },
                    );
                }
            }

            log.push(kind_name(descriptor.kind));
            i = i + 1;
        }
        proof {
            assert(ds.skip(ds.len() as int) =~= Seq::<DeviceDriverDescriptor>::empty());
        }
        Ok(log)
    }

    /// Enumerate all registered device drivers: a 1-based listing of their
    /// identifying names, in registration order, ready for diagnostics.
    pub fn enumerate(&self) -> (r: Vec<(usize, &'static str)>)
        ensures
            r@.len() == self.spec_descriptors().len(),
            forall|j: int|
                0 <= j < r@.len() ==> r@[j].0 == j + 1 && r@[j].1@ == spec_kind_name(
                    self.spec_descriptors()[j].kind,
                ),
    {
        let mut listing: Vec<(usize, &'static str)> = Vec::new();
        let mut i: usize = 0;
        while i < self.descriptors.len()
            invariant
                i <= self.descriptors@.len(),
                listing@.len() == i,
                forall|j: int|
                    0 <= j < i ==> listing@[j].0 == j + 1 && listing@[j].1@ == spec_kind_name(
                        self.descriptors@[j].kind,
                    ),
            decreases self.descriptors@.len() - i,
        {
            let descriptor = self.descriptors[i];
            listing.push((i + 1, kind_name(descriptor.kind)));
            i = i + 1;
        }
        listing
    }
}

/// Registration order drives everything: for any registered descriptor
/// sequence, the initialization log that `init_drivers` returns names the
/// drivers in exactly the order they were registered, and the listing that
/// `enumerate` produces names the same drivers in the same order, numbered
/// from 1. The hypotheses are the two functions' own postconditions.
pub proof fn lemma_registration_order(
    ds: Seq<DeviceDriverDescriptor>,
    log: Seq<&'static str>,
    listing: Seq<(usize, &'static str)>,
)
    requires
        log.len() == ds.len(),
        forall|j: int| 0 <= j < log.len() ==> log[j]@ == spec_kind_name(ds[j].kind),
        listing.len() == ds.len(),
        forall|j: int|
            0 <= j < listing.len() ==> listing[j].0 == j + 1 && listing[j].1@ == spec_kind_name(
                ds[j].kind,
            ),
    ensures
        forall|j: int|
            0 <= j < ds.len() ==> log[j]@ == spec_kind_name(ds[j].kind) && listing[j].0 == j + 1
                && listing[j].1@ == log[j]@,
{
}

impl DeviceDriver for GPIO {
    fn compatible(&self) -> &'static str {
        GPIO::COMPATIBLE
    }

    fn init(&mut self) -> Result<(), &'static str> {
        // Bringing the block up needs no register work; pin configuration
        // happens through the post-init callback once dependencies are
        // online.
        Ok(())
    }
}

impl DeviceDriver for PL011Uart {
    fn compatible(&self) -> &'static str {
        PL011Uart::COMPATIBLE
    }

    fn init(&mut self) -> Result<(), &'static str> {
        PL011Uart::init(self)
    }
}

} // verus!
