//! Whole-millisecond time values used by the frame clock.
use vstd::prelude::*;
use std::time::Duration;

verus! {

/// A span of time in whole milliseconds.
#[derive(Clone, Copy, Debug, PartialEq, Eq, Structural)]
pub struct Milliseconds(u32);

impl View for Milliseconds {
    type V = u32;

    closed spec fn view(&self) -> u32 {
        self.0
    }
}

impl Milliseconds {
    pub fn new(ms: u32) -> (r: Self)
        ensures
            r@ == ms,
    {
        Milliseconds(ms)
    }

    pub fn value(self) -> (r: u32)
        ensures
            r == self@,
    {
        self.0
    }

    /// Relies on std's `Duration::as_millis` to read a duration as whole
    /// milliseconds; a duration of 2^32 ms or more is truncated.
    #[verifier::external_body]
    pub fn from_duration(duration: Duration) -> Milliseconds {
        Milliseconds(duration.as_millis() as u32)
    }

    /// Relies on std's `Duration::from_millis`.
    #[verifier::external_body]
    pub fn to_duration(self) -> Duration {
        Duration::from_millis(self.0 as u64)
    }
}

} // verus!
