//! Task, scheduling and notification core of a small statically configured
//! microkernel, with the register-level argument decoding that feeds it,
//! and a few firmware helpers around it: artifact and image header checks,
//! fan module numbering, and the framing of the SP-RoT link.

pub mod abi;
pub mod arch;
pub mod fan_modules;
pub mod image;
pub mod region;
pub mod rot_images;
pub mod sprot;
pub mod task;
pub mod umem;

use vstd::prelude::*;

verus! {

/// Sum of two sizes.
pub fn add(left: usize, right: usize) -> (r: usize)
    requires
        left + right <= usize::MAX,
    ensures
        r == left + right,
{
    left + right
}

} // verus!
