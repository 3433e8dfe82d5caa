//! The channel number that capability operations address the driver with.

use vstd::prelude::*;

verus! {

/// A channel that the driver's parameter calls can address.
pub trait Channel {
    spec fn spec_channel(&self) -> u16;

    /// The channel number; the same on every call.
    fn channel(&self) -> (r: u16)
        ensures
            r == self.spec_channel(),
    ;
}

} // verus!
