//! The runtime shim's console object, which translated programs call.
use vstd::prelude::*;

verus! {

pub struct Console {}

impl Console {
    /// A verified program calls this only with a condition that holds.
    pub fn assert_that(&self, assertion: bool)
        requires
            assertion,
    {
    }
}

} // verus!
