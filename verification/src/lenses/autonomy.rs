//! Autonomy lens data: the guardrail posture of autonomous agents.

use vstd::prelude::*;

use super::health::HealthLevel;
use crate::text::{decimal_digits, push_decimal};

verus! {

/// Guardrail / safety-posture projection: whether autonomous agents may act
/// and how many guardrails (grants) are live.
#[derive(Debug, Clone, Copy, PartialEq, Eq, Structural)]
pub struct AutonomyLensInput {
    /// Number of live capability grants gating autonomous work.
    pub active_grants: u32,
    /// Master switch: are agents allowed to write code right now?
    pub agents_can_code: bool,
    /// Are the merge/code safety gates satisfied for autonomous coding?
    pub safe_to_code: bool,
    /// Count of agents currently blocked (paused / awaiting a grant).
    pub blocked_agents: u32,
    /// Rolled-up health posture for the autonomy subsystem.
    pub overall: HealthLevel,
    /// Read-model cursor, surfaced in the footer for traceability.
    pub event_cursor: u64,
}

/// How a guardrail reads in the posture table.
pub open spec fn yesno_of(value: bool) -> Seq<char> {
    if value {
        "yes"@
    } else {
        "NO"@
    }
}

/// How a guardrail reads in the posture table: `yes` when it allows the
/// action, `NO` when it blocks it.
pub fn yesno(value: bool) -> (r: &'static str)
    ensures
        r@ == yesno_of(value),
{
    if value {
        "yes"
    } else {
        "NO"
    }
}

/// The header line: live grants and whether agents may code.
pub open spec fn autonomy_header(a: AutonomyLensInput) -> Seq<char> {
    "Autonomy — grants="@ + decimal_digits(a.active_grants as nat) + " · code="@ + yesno_of(
        a.agents_can_code,
    )
}

impl AutonomyLensInput {
    /// The header line: live grants and whether agents may code.
    pub fn header_text(&self) -> (r: String)
        ensures
            r@ == autonomy_header(*self),
    {
        let mut s = "Autonomy — grants=".to_owned();
        push_decimal(&mut s, self.active_grants as u64);
        s.append(" · code=");
        s.append(yesno(self.agents_can_code));
        s
    }
}

} // verus!
