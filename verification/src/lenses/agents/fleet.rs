//! Agents lens fleet texts: the fleet status word, the header line, and the
//! output-budget and control cells of a live agent run.

use vstd::prelude::*;

use crate::text::{decimal_digits, join_strings, joined, push_decimal, texts_of};

verus! {

/// The fleet status word: a code freeze outranks blocked agents, which
/// outrank an idle fleet.
pub open spec fn fleet_status_of(agents_can_code: bool, blocked_agents: u32, active_agents: u32) -> Seq<char> {
    if !agents_can_code {
        "FROZEN"@
    } else if blocked_agents > 0 {
        "blocked"@
    } else if active_agents == 0 {
        "idle"@
    } else {
        "active"@
    }
}

/// Low-noise fleet status word: a code freeze or any blocked agent is more
/// urgent than a quiet, healthy fleet.
pub fn fleet_status(agents_can_code: bool, blocked_agents: u32, active_agents: u32) -> (r: &'static str)
    ensures
        r@ == fleet_status_of(agents_can_code, blocked_agents, active_agents),
{
    if !agents_can_code {
        "FROZEN"
    } else if blocked_agents > 0 {
        "blocked"
    } else if active_agents == 0 {
        "idle"
    } else {
        "active"
    }
}

/// The output-budget cell of a run: bytes used, over the limit when there is
/// one.
pub open spec fn output_budget_of(used: u64, limit: u64) -> Seq<char> {
    if limit == 0 {
        decimal_digits(used as nat)
    } else {
        decimal_digits(used as nat) + "/"@ + decimal_digits(limit as nat)
    }
}

/// The output-budget cell of a run: `used`, or `used/limit` when a limit is
/// set.
pub fn output_budget(output_bytes_used: u64, output_bytes_limit: u64) -> (r: String)
    ensures
        r@ == output_budget_of(output_bytes_used, output_bytes_limit),
{
    let mut s = String::new();
    push_decimal(&mut s, output_bytes_used);
    if output_bytes_limit != 0 {
        s.append("/");
        push_decimal(&mut s, output_bytes_limit);
    }
    s
}

/// The control cell of a run: `closed` when it accepts no control, else the
/// supported controls joined with commas.
pub fn controls_label(supported_controls: &[String]) -> (r: String)
    ensures
        r@ == (if supported_controls@.len() == 0 {
            "closed"@
        } else {
            joined(texts_of(supported_controls@), ","@)
        }),
{
    if supported_controls.len() == 0 {
        "closed".to_owned()
    } else {
        join_strings(supported_controls, ",")
    }
}

/// The Agents header line.
pub open spec fn agents_header_of(
    active_agents: u32,
    blocked_agents: u32,
    active_grants: u32,
    running_runs: u32,
    live_tty_runs: u32,
) -> Seq<char> {
    "Agents — "@ + decimal_digits(active_agents as nat) + " active · "@ + decimal_digits(
        blocked_agents as nat,
    ) + " blocked · "@ + decimal_digits(active_grants as nat) + " grants · "@ + decimal_digits(
        running_runs as nat,
    ) + " running runs · "@ + decimal_digits(live_tty_runs as nat) + " live tty"@
}

/// The Agents header line: active and blocked agents, grants, running runs
/// and live terminals.
pub fn agents_header(
    active_agents: u32,
    blocked_agents: u32,
    active_grants: u32,
    running_runs: u32,
    live_tty_runs: u32,
) -> (r: String)
    ensures
        r@ == agents_header_of(
            active_agents,
            blocked_agents,
            active_grants,
            running_runs,
            live_tty_runs,
        ),
{
    let mut s = "Agents — ".to_owned();
    push_decimal(&mut s, active_agents as u64);
    s.append(" active · ");
    push_decimal(&mut s, blocked_agents as u64);
    s.append(" blocked · ");
    push_decimal(&mut s, active_grants as u64);
    s.append(" grants · ");
    push_decimal(&mut s, running_runs as u64);
    s.append(" running runs · ");
    push_decimal(&mut s, live_tty_runs as u64);
    s.append(" live tty");
    s
}

} // verus!
