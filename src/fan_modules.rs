//! Fan module numbering of the sidecar mainboard.

use vstd::prelude::*;

verus! {

/// One of the four fan modules. Each module holds two fans; power, presence
/// and the LED are controlled per module.
#[derive(Clone, Copy, Debug, PartialEq, Eq, Structural)]
pub enum FanModuleIndex {
    Zero,
    One,
    Two,
    Three,
}

impl FanModuleIndex {
    /// The module numbered `v`; only 0 to 3 name a module.
    pub fn from(v: u8) -> (r: FanModuleIndex)
        requires
            v < 4,
        ensures
            v == 0 ==> r == FanModuleIndex::Zero,
            v == 1 ==> r == FanModuleIndex::One,
            v == 2 ==> r == FanModuleIndex::Two,
            v == 3 ==> r == FanModuleIndex::Three,
    {
        match v {
            0 => FanModuleIndex::Zero,
            1 => FanModuleIndex::One,
            2 => FanModuleIndex::Two,
            _ => FanModuleIndex::Three,
        }
    }
}

} // verus!
