//! Monotonic timestamps. Wall-clock time never participates in timeout or
//! velocity arithmetic; only these timestamps do.

use vstd::prelude::*;

verus! {

/// A monotonic timestamp in nanoseconds since an arbitrary origin.
#[derive(Clone, Copy, Debug, PartialEq, Eq, Hash, PartialOrd, Ord, Structural)]
pub struct Monotonic {
    nanos: u64,
}

impl View for Monotonic {
    type V = u64;

    /// Nanoseconds since the origin.
    closed spec fn view(&self) -> u64 {
        self.nanos
    }
}

impl Monotonic {
    /// The timestamp `nanos` nanoseconds after the origin.
    pub fn from_nanos(nanos: u64) -> (r: Monotonic)
        ensures
            r@ == nanos,
    {
        Monotonic { nanos }
    }

    /// Nanoseconds since the origin.
    pub fn as_nanos(self) -> (r: u64)
        ensures
            r == self@,
    {
        self.nanos
    }
}

} // verus!
