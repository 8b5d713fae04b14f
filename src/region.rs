//! Static per-task configuration: memory regions and task descriptors.

use vstd::prelude::*;

use crate::umem::USlice;

verus! {

/// The region may be read.
pub const READ: u32 = 1 << 0;

/// The region may be written.
pub const WRITE: u32 = 1 << 1;

/// Code in the region may be executed.
pub const EXECUTE: u32 = 1 << 2;

/// The region is memory-mapped I/O, where an access may have side effects.
pub const DEVICE: u32 = 1 << 3;

/// The region may be used for DMA.
pub const DMA: u32 = 1 << 4;

/// Attribute bits of a memory region.
#[derive(Clone, Copy, Debug, PartialEq, Eq, Structural)]
pub struct RegionAttributes(pub u32);

impl RegionAttributes {
    /// All of `bits` are set.
    pub open spec fn has(self, bits: u32) -> bool {
        self.0 & bits == bits
    }

    pub fn contains(&self, bits: u32) -> (r: bool)
        ensures
            r == self.has(bits),
    {
        self.0 & bits == bits
    }
}

/// A region of the address space that a task may use.
#[derive(Clone, Copy, Debug, PartialEq, Eq, Structural)]
pub struct RegionDesc {
    pub base: u32,
    pub size: u32,
    pub attributes: RegionAttributes,
}

impl RegionDesc {
    /// The slice lies entirely within `[base, base + size)`.
    pub open spec fn spec_covers<T>(&self, slice: &USlice<T>) -> bool {
        &&& self.base <= slice.spec_base()
        &&& slice.spec_end() <= self.base + self.size
    }

    /// The region covers the slice, carries `bits`, and is not device memory.
    pub open spec fn grants<T>(&self, slice: &USlice<T>, bits: u32) -> bool {
        &&& self.spec_covers(slice)
        &&& self.attributes.has(bits)
        &&& !self.attributes.has(DEVICE)
    }

    pub fn covers<T>(&self, slice: &USlice<T>) -> (r: bool)
        ensures
            r == self.spec_covers(slice),
    {
        let base = slice.base_addr();
        let end = slice.end_addr();
        (self.base as usize) <= base && (end as u64) <= (self.base as u64) + (self.size as u64)
    }
}

/// Read-only description a task is created, and restarted, from.
#[derive(Clone, Copy, Debug, PartialEq, Eq, Structural)]
pub struct TaskDesc {
    pub entry_point: u32,
    pub initial_stack: u32,
    pub priority: u8,
}

} // verus!
