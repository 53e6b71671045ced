//! VTI lens data: test-impact signal quality and job pressure, read from the
//! mission snapshot.

use vstd::prelude::*;

use super::health::HealthLevel;
use crate::text::{decimal_digits, push_decimal};

verus! {

/// Projection feeding the VTI (test-impact / test-selection) cockpit.
#[derive(Debug, Clone, Copy, PartialEq, Eq, Structural)]
pub struct VtiLensInput {
    /// Selector misses observed in the last 24h.
    pub selector_misses_24h: u32,
    /// Jobs currently executing.
    pub running_jobs: u32,
    /// Jobs that ended in failure: the primary alert signal.
    pub failed_jobs: u32,
    /// Jobs waiting for a runner.
    pub queued_jobs: u32,
    /// Overall mission posture.
    pub overall: HealthLevel,
    pub event_cursor: u64,
}

/// The header line: selector misses and failing jobs.
pub open spec fn vti_header(v: VtiLensInput) -> Seq<char> {
    "VTI Tests — "@ + decimal_digits(v.selector_misses_24h as nat) + " selector misses (24h) · "@
        + decimal_digits(v.failed_jobs as nat) + " failing"@
}

impl VtiLensInput {
    /// The header line: selector misses and failing jobs.
    pub fn header_text(&self) -> (r: String)
        ensures
            r@ == vti_header(*self),
    {
        let mut s = "VTI Tests — ".to_owned();
        push_decimal(&mut s, self.selector_misses_24h as u64);
        s.append(" selector misses (24h) · ");
        push_decimal(&mut s, self.failed_jobs as u64);
        s.append(" failing");
        s
    }
}

} // verus!
