//! Common device driver code: typed wrapper over a raw MMIO base address.

use vstd::prelude::*;
use core::marker::PhantomData;

verus! {

/// Typed view over a memory-mapped register block of layout `T`.
///
/// The wrapper only records where the block lives. The caller of [`Self::new`]
/// vouches that the address is the base of a valid, correctly aligned MMIO
/// region for the lifetime of the wrapper; the library itself never
/// dereferences the address. Construction has no side effect: effects occur
/// only when the embedding program performs the register accesses that the
/// drivers' write traces prescribe.
pub struct MMIODerefWrapper<T> {
    start_addr: usize,
    layout: PhantomData<T>,
}

impl<T> MMIODerefWrapper<T> {
    /// The base address the wrapper was created with.
    pub closed spec fn spec_start_addr(&self) -> usize {
        self.start_addr
    }

    /// Create an instance for the register block at `start_addr`.
    pub fn new(start_addr: usize) -> (r: Self)
        ensures
            r.spec_start_addr() == start_addr,
    {
        MMIODerefWrapper { start_addr, layout: PhantomData }
    }

    /// The base address of the register block.
    pub fn start_addr(&self) -> (r: usize)
        ensures
            r == self.spec_start_addr(),
    {
        self.start_addr
    }
}

} // verus!
