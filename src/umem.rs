//! Descriptions of caller-supplied ranges of user memory.

use core::marker::PhantomData;

use vstd::prelude::*;

use crate::abi::UsageError;

verus! {

/// Highest address of the 32-bit address space that tasks live in.
pub const ADDRESS_MAX: usize = 0xFFFF_FFFF;

/// Byte size of one lease record.
pub const LEASE_SIZE: usize = 12;

/// An element type that can be read from or written to user memory.
pub trait UElement {
    /// Size of one element, in bytes.
    spec fn spec_size() -> nat;

    fn element_size() -> (r: usize)
        ensures
            r as nat == Self::spec_size(),
            r > 0,
    ;
}

impl UElement for u8 {
    open spec fn spec_size() -> nat {
        1
    }

    fn element_size() -> (r: usize) {
        1
    }
}

/// A lease handed over with a message: a window of the sender's memory.
#[derive(Clone, Copy, Debug, PartialEq, Eq, Structural)]
pub struct ULease {
    pub attributes: u32,
    pub base_address: u32,
    pub length: u32,
}

impl UElement for ULease {
    open spec fn spec_size() -> nat {
        LEASE_SIZE as nat
    }

    fn element_size() -> (r: usize) {
        LEASE_SIZE
    }
}

/// A range of user memory holding elements of type `T`, checked not to run
/// past the end of the address space. The length is counted in bytes.
pub struct USlice<T> {
    base_address: usize,
    length: usize,
    _marker: PhantomData<T>,
}

impl<T> USlice<T> {
    #[verifier::type_invariant]
    spec fn inside_address_space(self) -> bool {
        self.base_address + self.length <= ADDRESS_MAX
    }

    /// First address of the range.
    pub closed spec fn spec_base(&self) -> int {
        self.base_address as int
    }

    /// Length of the range, in bytes.
    pub closed spec fn spec_len(&self) -> int {
        self.length as int
    }

    /// One past the last address of the range.
    pub open spec fn spec_end(&self) -> int {
        self.spec_base() + self.spec_len()
    }

    pub fn base_addr(&self) -> (r: usize)
        ensures
            r == self.spec_base(),
    {
        self.base_address
    }

    pub fn len(&self) -> (r: usize)
        ensures
            r == self.spec_len(),
    {
        self.length
    }

    pub fn is_empty(&self) -> (r: bool)
        ensures
            r == (self.spec_len() == 0),
    {
        self.length == 0
    }

    pub fn end_addr(&self) -> (r: usize)
        ensures
            r == self.spec_end(),
            r <= ADDRESS_MAX,
    {
        proof {
            use_type_invariant(self);
        }
        self.base_address + self.length
    }
}

impl<T: UElement> USlice<T> {
    /// Whether `(base, length)` describes an acceptable range: it does not
    /// wrap past the end of the address space, and holds whole elements.
    pub open spec fn acceptable(base: int, length: int) -> bool {
        &&& base + length <= ADDRESS_MAX
        &&& length % (T::spec_size() as int) == 0
    }

    /// `r` is what `from_raw(base, length)` gives: the range itself when it is
    /// acceptable, otherwise an `InvalidSlice` usage error.
    pub open spec fn from_raw_outcome(r: Result<USlice<T>, UsageError>, base: int, length: int) -> bool {
        match r {
            Ok(s) => Self::acceptable(base, length) && s.spec_base() == base && s.spec_len() == length,
            Err(e) => !Self::acceptable(base, length) && e == UsageError::InvalidSlice,
        }
    }

    /// Builds a slice from a base address and a length in bytes.
    pub fn from_raw(base_address: usize, length: usize) -> (r: Result<Self, UsageError>)
        ensures
            Self::from_raw_outcome(r, base_address as int, length as int),
    {
        let size = T::element_size();
        if base_address > ADDRESS_MAX || length > ADDRESS_MAX - base_address {
            return Err(UsageError::InvalidSlice);
        }
        if length % size != 0 {
            return Err(UsageError::InvalidSlice);
        }
        Ok(USlice { base_address, length, _marker: PhantomData })
    }
}

} // verus!
