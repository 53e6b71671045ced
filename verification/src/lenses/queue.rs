//! Queue lens data: queue depth against runner capacity.
//!
//! Capacity math (headroom) is derived here so the view stays a renderer.

use vstd::prelude::*;

use super::health::RunnerHealth;
use crate::text::{decimal_digits, push_decimal};

verus! {

/// Queue depth, job counts and runner capacity.
#[derive(Debug, Clone, Copy, PartialEq, Eq, Structural)]
pub struct QueueLensInput {
    pub queue_depth: u32,
    pub running_jobs: u32,
    pub failed_jobs: u32,
    pub active_runners: u32,
    pub total_runners: u32,
    /// Per-runner health rollup (online/busy/idle/degraded).
    pub runner_health: RunnerHealth,
    pub event_cursor: u64,
}

/// Free runner slots: total minus active, never below zero.
pub open spec fn headroom_of(total: u32, active: u32) -> int {
    if total >= active {
        total - active
    } else {
        0
    }
}

/// Whether the queue outgrows the free runner slots.
pub open spec fn exceeds_headroom(q: QueueLensInput) -> bool {
    q.queue_depth > headroom_of(q.total_runners, q.active_runners)
}

/// The queue header line.
pub open spec fn queue_header(q: QueueLensInput) -> Seq<char> {
    "Queue — "@ + decimal_digits(q.queue_depth as nat) + " queued · "@ + decimal_digits(
        q.running_jobs as nat,
    ) + " running · "@ + decimal_digits(q.failed_jobs as nat) + " failed · capacity "@
        + decimal_digits(q.active_runners as nat) + "/"@ + decimal_digits(q.total_runners as nat)
}

/// The note beside the headroom figure.
pub open spec fn headroom_note_text(q: QueueLensInput) -> Seq<char> {
    let free = decimal_digits(headroom_of(q.total_runners, q.active_runners) as nat);
    if exceeds_headroom(q) {
        free + " free — queue exceeds free capacity"@
    } else {
        free + " free"@
    }
}

impl QueueLensInput {
    /// Free runner slots (theoretical headroom). Saturates at zero so an
    /// over-committed fleet never underflows.
    pub fn headroom(&self) -> (r: u32)
        ensures
            r == headroom_of(self.total_runners, self.active_runners),
    {
        self.total_runners.saturating_sub(self.active_runners)
    }

    /// True when the queue cannot be absorbed by the currently free runners:
    /// jobs will wait.
    pub fn queue_exceeds_headroom(&self) -> (r: bool)
        ensures
            r == exceeds_headroom(*self),
    {
        self.queue_depth > self.headroom()
    }

    /// The header line: queued, running and failed jobs, and the capacity.
    pub fn header_text(&self) -> (r: String)
        ensures
            r@ == queue_header(*self),
    {
        let mut s = "Queue — ".to_owned();
        push_decimal(&mut s, self.queue_depth as u64);
        s.append(" queued · ");
        push_decimal(&mut s, self.running_jobs as u64);
        s.append(" running · ");
        push_decimal(&mut s, self.failed_jobs as u64);
        s.append(" failed · capacity ");
        push_decimal(&mut s, self.active_runners as u64);
        s.append("/");
        push_decimal(&mut s, self.total_runners as u64);
        s
    }

    /// The headroom note: the free slots, flagged when the queue exceeds
    /// them.
    pub fn headroom_note(&self) -> (r: String)
        ensures
            r@ == headroom_note_text(*self),
    {
        let mut s = String::new();
        push_decimal(&mut s, self.headroom() as u64);
        if self.queue_exceeds_headroom() {
            s.append(" free — queue exceeds free capacity");
        } else {
            s.append(" free");
        }
        s
    }
}

} // verus!
