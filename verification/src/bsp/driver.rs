//! BSP driver support: which drivers this board registers, and in what
//! order.

use vstd::prelude::*;
use crate::driver::{
    spec_kind_name, ConfigurationError, DeviceDriverDescriptor, DeviceKind, DriverManager,
    PostInitCallback, NUM_DRIVERS,
};

verus! {

/// The GPIO descriptor the board registers: the driver alone, with no
/// callback.
pub open spec fn spec_gpio_descriptor() -> DeviceDriverDescriptor {
    DeviceDriverDescriptor { kind: DeviceKind::Gpio, post_init_callback: None }
}

/// The UART descriptor the board registers. Its post-init callback maps the
/// PL011's pins, so the mapping runs after the UART's own init and before
/// anything relies on the UART — the registration order below takes care of
/// the rest.
pub open spec fn spec_uart_descriptor() -> DeviceDriverDescriptor {
    DeviceDriverDescriptor {
        kind: DeviceKind::Pl011Uart,
        post_init_callback: Some(PostInitCallback::MapPl011Uart),
    }
}

/// Return the board's driver manager, with nothing registered yet.
pub fn driver_manager() -> (r: DriverManager)
    ensures
        r.spec_descriptors() == Seq::<DeviceDriverDescriptor>::empty(),
{
    DriverManager::new()
}

/// Initialize the BSP driver subsystem: register the board's drivers in
/// dependency order — GPIO first, then the PL011 UART whose callback maps
/// the pins.
pub fn init(mgr: &mut DriverManager) -> (r: Result<(), ConfigurationError>)
    ensures
        old(mgr).spec_descriptors().len() + 2 <= NUM_DRIVERS ==> {
            &&& r is Ok
            &&& final(mgr).spec_descriptors() == old(mgr).spec_descriptors().push(
                spec_gpio_descriptor(),
            ).push(spec_uart_descriptor())
        },
        old(mgr).spec_descriptors().len() + 2 > NUM_DRIVERS ==> {
            &&& r matches Err(e) && e matches ConfigurationError::CapacityExceeded { name }
                && (if old(mgr).spec_descriptors().len() >= NUM_DRIVERS {
                    name@ == spec_kind_name(spec_gpio_descriptor().kind)
                } else {
                    name@ == spec_kind_name(spec_uart_descriptor().kind)
                })
            &&& (old(mgr).spec_descriptors().len() >= NUM_DRIVERS ==> final(mgr).spec_descriptors() == old(
                mgr,
            ).spec_descriptors())
            &&& (old(mgr).spec_descriptors().len() < NUM_DRIVERS ==> final(mgr).spec_descriptors() == old(
                mgr,
            ).spec_descriptors().push(spec_gpio_descriptor()))
        },
{
    let gpio_descriptor = DeviceDriverDescriptor::new(DeviceKind::Gpio, None);
    if let Err(e) = mgr.register_driver(gpio_descriptor) {
        return Err(e);
    }

    let uart_descriptor = DeviceDriverDescriptor::new(
        DeviceKind::Pl011Uart,
        Some(PostInitCallback::MapPl011Uart),
    );
    if let Err(e) = mgr.register_driver(uart_descriptor) {
        return Err(e);
    }

    Ok(())
}

} // verus!
