//! A monotonic clock that counts nanoseconds.

use std::time::Instant;
use vstd::prelude::*;

verus! {

/// A monotonic clock. Its readings are nanoseconds since it was made.
#[derive(Clone, Copy)]
pub struct Clock {
    origin: Instant,
}

impl Clock {
    /// A clock that starts now.
    pub fn new() -> Clock {
        Clock { origin: Instant::now() }
    }

    /// The nanoseconds that have passed since the clock was made, or
    /// `u64::MAX` if they no longer fit.
    pub fn now(&self) -> u64 {
        let passed = self.origin.elapsed();
        Clock::reading(passed.as_nanos())
    }

    /// The reading that stands for `nanos` nanoseconds: `nanos` itself, or
    /// `u64::MAX` if it no longer fits.
    pub fn reading(nanos: u128) -> (reading: u64)
        ensures
            reading == if nanos > u64::MAX {
                u64::MAX as int
            } else {
                nanos as int
            },
    {
        if nanos > 0xffff_ffff_ffff_ffff {
            u64::MAX
        } else {
            nanos as u64
        }
    }
}

} // verus!
