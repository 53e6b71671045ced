//! Health vocabulary shared by the fleet lenses: the five-level health scale
//! and the runner-fleet rollup.

use vstd::prelude::*;

verus! {

/// Health of a component, a runner node or the whole fleet.
#[derive(Debug, Clone, Copy, PartialEq, Eq, Structural)]
pub enum HealthLevel {
    Healthy,
    Warning,
    Degraded,
    Critical,
    Unknown,
}

/// Runner-fleet rollup: how many runners are online, busy, idle and
/// degraded.
#[derive(Debug, Clone, Copy, PartialEq, Eq, Structural)]
pub struct RunnerHealth {
    pub online: u32,
    pub busy: u32,
    pub idle: u32,
    pub degraded: u32,
}

impl Default for RunnerHealth {
    fn default() -> (r: RunnerHealth)
        ensures
            r == (RunnerHealth { online: 0, busy: 0, idle: 0, degraded: 0 }),
    {
        RunnerHealth { online: 0, busy: 0, idle: 0, degraded: 0 }
    }
}

} // verus!
