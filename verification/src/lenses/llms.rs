//! LLMs lens data: the model-access ledger, read from the mission proxy
//! (live agent sessions, credential grants and the access posture).

use vstd::prelude::*;

use crate::text::{decimal_digits, push_decimal};

verus! {

/// Model-access projection.
#[derive(Debug, Clone, Copy, PartialEq, Eq, Structural)]
pub struct LlmsLensInput {
    /// Active agent sessions: the live consumers of LLM/model access.
    pub active_agents: u32,
    /// Active credential grants gating model/provider access.
    pub active_grants: u32,
    /// Access posture: are agents currently allowed to write code?
    pub agents_can_code: bool,
    pub event_cursor: u64,
}

impl Default for LlmsLensInput {
    fn default() -> (r: LlmsLensInput)
        ensures
            r == (LlmsLensInput {
                active_agents: 0,
                active_grants: 0,
                agents_can_code: false,
                event_cursor: 0,
            }),
    {
        LlmsLensInput { active_agents: 0, active_grants: 0, agents_can_code: false, event_cursor: 0 }
    }
}

/// The header line: agent sessions and grants.
pub open spec fn llms_header(l: LlmsLensInput) -> Seq<char> {
    "LLMs — "@ + decimal_digits(l.active_agents as nat) + " agent sessions · "@ + decimal_digits(
        l.active_grants as nat,
    ) + " grants"@
}

impl LlmsLensInput {
    /// The header line: agent sessions and grants.
    pub fn header_text(&self) -> (r: String)
        ensures
            r@ == llms_header(*self),
    {
        let mut s = "LLMs — ".to_owned();
        push_decimal(&mut s, self.active_agents as u64);
        s.append(" agent sessions · ");
        push_decimal(&mut s, self.active_grants as u64);
        s.append(" grants");
        s
    }

    /// Whether no agent holds model access (the ledger's empty state).
    pub fn is_idle(&self) -> (r: bool)
        ensures
            r == (self.active_agents == 0),
    {
        self.active_agents == 0
    }
}

} // verus!
