//! Runners lens data: the per-node fleet grid and the per-pool health rows.
//!
//! A node row reads as a low-noise status word; the fleet alert counts the
//! nodes that need attention. When the dashboard carries no summary, the fleet totals fall
//! back to the mission counters.

use vstd::prelude::*;

use super::health::HealthLevel;
use crate::text::{decimal_digits, push_decimal};

verus! {

/// One runner-node row in the fleet grid.
#[derive(Debug, Clone)]
pub struct RunnerNodeRow {
    pub label: String,
    pub runner_id: String,
    pub pool: String,
    pub status: HealthLevel,
    pub tags: Vec<String>,
    /// Human-friendly last contact.
    pub last_contact: String,
}

/// Status word of a node: stuck > busy > idle > online.
pub open spec fn status_word_of(level: HealthLevel) -> Seq<char> {
    match level {
        HealthLevel::Critical => "STUCK"@,
        HealthLevel::Degraded => "busy"@,
        HealthLevel::Warning => "idle"@,
        HealthLevel::Healthy => "online"@,
        HealthLevel::Unknown => "probing"@,
    }
}

/// A node needs attention when it is stuck or unreachable (probing).
pub open spec fn node_alerting(n: RunnerNodeRow) -> bool {
    n.status == HealthLevel::Critical || n.status == HealthLevel::Unknown
}

impl RunnerNodeRow {
    /// Low-noise status word: `Critical` reads as a stuck node, `Degraded` as
    /// busy, `Warning` as idle, `Healthy` as online, `Unknown` as probing.
    pub fn status_word(&self) -> (r: &'static str)
        ensures
            r@ == status_word_of(self.status),
    {
        match self.status {
            HealthLevel::Critical => "STUCK",
            HealthLevel::Degraded => "busy",
            HealthLevel::Warning => "idle",
            HealthLevel::Healthy => "online",
            HealthLevel::Unknown => "probing",
        }
    }

    /// True when this node needs attention (stuck or unreachable/probing).
    pub fn is_alerting(&self) -> (r: bool)
        ensures
            r == node_alerting(*self),
    {
        match self.status {
            HealthLevel::Critical => true,
            HealthLevel::Unknown => true,
            _ => false,
        }
    }
}

/// Fleet totals reported by the runners dashboard.
#[derive(Debug, Clone, Copy, PartialEq, Eq, Structural)]
pub struct RunnersSummary {
    pub total_runners: u32,
    pub active_runners: u32,
    pub paused_runners: u32,
    pub draining_runners: u32,
}

/// Runners lens input: fleet totals and the node grid.
#[derive(Debug, Clone)]
pub struct RunnersLensInput {
    pub active_runners: u32,
    pub total_runners: u32,
    pub paused_runners: u32,
    pub draining_runners: u32,
    pub nodes: Vec<RunnerNodeRow>,
    pub event_cursor: u64,
}

impl Default for RunnersLensInput {
    fn default() -> (r: RunnersLensInput)
        ensures
            r.active_runners == 0,
            r.total_runners == 0,
            r.paused_runners == 0,
            r.draining_runners == 0,
            r.nodes@.len() == 0,
            r.event_cursor == 0,
    {
        RunnersLensInput {
            active_runners: 0,
            total_runners: 0,
            paused_runners: 0,
            draining_runners: 0,
            nodes: Vec::new(),
            event_cursor: 0,
        }
    }
}

/// Number of nodes among `nodes` that need attention.
pub open spec fn stuck_count(nodes: Seq<RunnerNodeRow>) -> nat
    decreases nodes.len(),
{
    if nodes.len() == 0 {
        0
    } else {
        stuck_count(nodes.drop_last()) + if node_alerting(nodes.last()) {
            1nat
        } else {
            0nat
        }
    }
}

/// The number of nodes needing attention never exceeds the number of nodes.
pub proof fn lemma_stuck_count_bounded(nodes: Seq<RunnerNodeRow>)
    ensures
        stuck_count(nodes) <= nodes.len(),
    decreases nodes.len(),
{
    if nodes.len() > 0 {
        lemma_stuck_count_bounded(nodes.drop_last());
    }
}

impl RunnersLensInput {
    /// Project the dashboard: its summary totals when it has one, else the
    /// mission's total and active runner counts (with nothing paused or
    /// draining), and the node rows in order.
    pub fn from_dashboard(
        summary: Option<RunnersSummary>,
        mission_total_runners: u32,
        mission_active_runners: u32,
        nodes: Vec<RunnerNodeRow>,
        event_cursor: u64,
    ) -> (r: RunnersLensInput)
        ensures
            match summary {
                Some(s) => {
                    &&& r.total_runners == s.total_runners
                    &&& r.active_runners == s.active_runners
                    &&& r.paused_runners == s.paused_runners
                    &&& r.draining_runners == s.draining_runners
                },
                None => {
                    &&& r.total_runners == mission_total_runners
                    &&& r.active_runners == mission_active_runners
                    &&& r.paused_runners == 0
                    &&& r.draining_runners == 0
                },
            },
            r.nodes@ == nodes@,
            r.event_cursor == event_cursor,
    {
        let s = match summary {
            Some(s) => s,
            None => RunnersSummary {
                total_runners: mission_total_runners,
                active_runners: mission_active_runners,
                paused_runners: 0,
                draining_runners: 0,
            },
        };
        RunnersLensInput {
            active_runners: s.active_runners,
            total_runners: s.total_runners,
            paused_runners: s.paused_runners,
            draining_runners: s.draining_runners,
            nodes,
            event_cursor,
        }
    }

    /// Count of nodes that need attention (stuck or unreachable): drives the
    /// fleet alert banner.
    pub fn stuck_nodes(&self) -> (r: usize)
        ensures
            r == stuck_count(self.nodes@),
    {
        let mut count: usize = 0;
        let mut i: usize = 0;
        while i < self.nodes.len()
            invariant
                i <= self.nodes@.len(),
                count == stuck_count(self.nodes@.take(i as int)),
            decreases self.nodes@.len() - i,
        {
            proof {
                assert(self.nodes@.take(i + 1).drop_last() =~= self.nodes@.take(i as int));
                lemma_stuck_count_bounded(self.nodes@.take(i as int));
            }
            if self.nodes[i].is_alerting() {
                count = count + 1;
            }
            i = i + 1;
        }
        assert(self.nodes@.take(self.nodes@.len() as int) =~= self.nodes@);
        count
    }
}

/// One per-pool row in the Pools/Health grid.
#[derive(Debug, Clone)]
pub struct PoolHealthRow {
    pub pool: String,
    pub tags: Vec<String>,
    pub trust_tier: String,
    pub paused: bool,
    pub queued_jobs: u32,
    pub running_jobs: u32,
    pub failed_jobs: u32,
    pub active_slots: u32,
    pub idle_slots: u32,
    pub configured_max_slots: u32,
    pub online_runners: u32,
    pub stuck_runners: u32,
    /// Whole-percent utilization (`running / active_slots`).
    pub utilization_pct: u32,
    pub saturated: bool,
}

/// State word of a pool: a pause outranks saturation.
pub open spec fn pool_state_of(p: PoolHealthRow) -> Seq<char> {
    if p.paused {
        "PAUSED"@
    } else if p.saturated {
        "SATURATED"@
    } else {
        "active"@
    }
}

/// Runner cell of a pool: the online count, with the stuck count when any.
pub open spec fn pool_runners_of(p: PoolHealthRow) -> Seq<char> {
    if p.stuck_runners > 0 {
        decimal_digits(p.online_runners as nat) + " ("@ + decimal_digits(p.stuck_runners as nat)
            + "stuck)"@
    } else {
        decimal_digits(p.online_runners as nat) + " online"@
    }
}

impl PoolHealthRow {
    /// The pool's state word: `PAUSED`, else `SATURATED`, else `active`.
    pub fn state_word(&self) -> (r: &'static str)
        ensures
            r@ == pool_state_of(*self),
    {
        if self.paused {
            "PAUSED"
        } else if self.saturated {
            "SATURATED"
        } else {
            "active"
        }
    }

    /// The pool's runner cell: `N online`, or `N (Mstuck)` when any runner is
    /// stuck.
    pub fn runners_text(&self) -> (r: String)
        ensures
            r@ == pool_runners_of(*self),
    {
        let mut s = String::new();
        push_decimal(&mut s, self.online_runners as u64);
        if self.stuck_runners > 0 {
            s.append(" (");
            push_decimal(&mut s, self.stuck_runners as u64);
            s.append("stuck)");
        } else {
            s.append(" online");
        }
        s
    }
}

} // verus!
