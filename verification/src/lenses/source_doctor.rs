//! Source Doctor lens data: one diagnostic row per infrastructure component
//! plus a synthetic row for the runner fleet.
//!
//! Every row carries a concrete diagnostic string: the component message with
//! its latency, or `ok` when there is nothing to say.

use vstd::prelude::*;

use super::health::{HealthLevel, RunnerHealth};
use crate::text::{decimal_digits, push_decimal};

verus! {

/// Health report of one infrastructure component (scm, database, sandbox,
/// cache, vault).
#[derive(Debug, Clone)]
pub struct ComponentHealth {
    pub name: String,
    pub status: HealthLevel,
    pub detail: Option<String>,
    pub latency_ms: Option<u64>,
}

/// One component row in the diagnostic table.
#[derive(Debug, Clone)]
pub struct ComponentRow {
    pub name: String,
    pub health: HealthLevel,
    /// The component message plus latency, or a runner fleet summary.
    pub detail: String,
}

/// Source Doctor lens input: every component diagnosed, in display order.
#[derive(Debug, Clone)]
pub struct SourceDoctorLensInput {
    pub components: Vec<ComponentRow>,
    pub event_cursor: u64,
}

/// Diagnostic text of a component: its message, the latency appended in
/// brackets (or alone when there is no message), and `ok` when both are
/// missing or empty.
pub open spec fn component_detail(detail: Option<Seq<char>>, latency_ms: Option<u64>) -> Seq<char> {
    let base = match detail {
        Some(d) => d,
        None => Seq::empty(),
    };
    let text = match latency_ms {
        Some(ms) => if base.len() == 0 {
            decimal_digits(ms as nat) + "ms"@
        } else {
            base + " ("@ + decimal_digits(ms as nat) + "ms)"@
        },
        None => base,
    };
    if text.len() == 0 {
        "ok"@
    } else {
        text
    }
}

/// The view of an optional message.
pub open spec fn opt_view(s: Option<String>) -> Option<Seq<char>> {
    match s {
        Some(t) => Some(t@),
        None => None,
    }
}

/// The row diagnosed for one component.
pub open spec fn component_row_of(c: ComponentHealth) -> (Seq<char>, HealthLevel, Seq<char>) {
    (c.name@, c.status, component_detail(opt_view(c.detail), c.latency_ms))
}

/// Health of the runner fleet: unknown with nothing online, degraded with
/// any degraded runner, healthy otherwise.
pub open spec fn fleet_health(r: RunnerHealth) -> HealthLevel {
    if r.online == 0 {
        HealthLevel::Unknown
    } else if r.degraded > 0 {
        HealthLevel::Degraded
    } else {
        HealthLevel::Healthy
    }
}

/// Fleet summary of the runners row.
pub open spec fn fleet_detail(r: RunnerHealth) -> Seq<char> {
    decimal_digits(r.online as nat) + " online · "@ + decimal_digits(r.busy as nat) + " busy · "@
        + decimal_digits(r.idle as nat) + " idle · "@ + decimal_digits(r.degraded as nat)
        + " degraded"@
}

/// Number of healthy rows.
pub open spec fn healthy_rows(rows: Seq<ComponentRow>) -> nat
    decreases rows.len(),
{
    if rows.len() == 0 {
        0
    } else {
        healthy_rows(rows.drop_last()) + if rows.last().health == HealthLevel::Healthy {
            1nat
        } else {
            0nat
        }
    }
}

/// The number of healthy rows never exceeds the number of rows.
pub proof fn lemma_healthy_rows_bounded(rows: Seq<ComponentRow>)
    ensures
        healthy_rows(rows) <= rows.len(),
    decreases rows.len(),
{
    if rows.len() > 0 {
        lemma_healthy_rows_bounded(rows.drop_last());
    }
}

/// The header line: healthy components out of all diagnosed.
pub open spec fn doctor_header(rows: Seq<ComponentRow>) -> Seq<char> {
    "Source Doctor — "@ + decimal_digits(healthy_rows(rows)) + "/"@ + decimal_digits(rows.len())
        + " components healthy"@
}

/// Diagnose one component.
pub fn component_row(c: &ComponentHealth) -> (r: ComponentRow)
    ensures
        (r.name@, r.health, r.detail@) == component_row_of(*c),
{
    let mut detail = match &c.detail {
        Some(d) => d.clone(),
        None => String::new(),
    };
    match c.latency_ms {
        Some(ms) => {
            if detail.as_str().is_empty() {
                let mut s = String::new();
                push_decimal(&mut s, ms);
                s.append("ms");
                detail = s;
            } else {
                detail.append(" (");
                push_decimal(&mut detail, ms);
                detail.append("ms)");
            }
        },
        None => {},
    }
    if detail.as_str().is_empty() {
        detail = "ok".to_owned();
    }
    ComponentRow { name: c.name.clone(), health: c.status, detail }
}

/// The synthetic runner-fleet row.
pub fn runners_row(r: RunnerHealth) -> (row: ComponentRow)
    ensures
        row.name@ == "runners"@,
        row.health == fleet_health(r),
        row.detail@ == fleet_detail(r),
{
    let health = if r.online == 0 {
        HealthLevel::Unknown
    } else if r.degraded > 0 {
        HealthLevel::Degraded
    } else {
        HealthLevel::Healthy
    };
    let mut detail = String::new();
    push_decimal(&mut detail, r.online as u64);
    detail.append(" online · ");
    push_decimal(&mut detail, r.busy as u64);
    detail.append(" busy · ");
    push_decimal(&mut detail, r.idle as u64);
    detail.append(" idle · ");
    push_decimal(&mut detail, r.degraded as u64);
    detail.append(" degraded");
    ComponentRow { name: "runners".to_owned(), health, detail }
}

impl SourceDoctorLensInput {
    /// Diagnose `components` in order, then append the runner-fleet row.
    pub fn from_components(
        components: &[ComponentHealth],
        runners: RunnerHealth,
        event_cursor: u64,
    ) -> (r: SourceDoctorLensInput)
        ensures
            r.components@.len() == components@.len() + 1,
            forall|i: int|
                0 <= i < components@.len() ==> ((#[trigger] r.components@[i]).name@,
                r.components@[i].health, r.components@[i].detail@) == component_row_of(
                    components@[i],
                ),
            r.components@.last().name@ == "runners"@,
            r.components@.last().health == fleet_health(runners),
            r.components@.last().detail@ == fleet_detail(runners),
            r.event_cursor == event_cursor,
    {
        let mut rows: Vec<ComponentRow> = Vec::new();
        let mut i: usize = 0;
        while i < components.len()
            invariant
                i <= components@.len(),
                rows@.len() == i,
                forall|k: int|
                    0 <= k < i ==> ((#[trigger] rows@[k]).name@, rows@[k].health, rows@[k].detail@)
                        == component_row_of(components@[k]),
            decreases components@.len() - i,
        {
            let row = component_row(&components[i]);
            rows.push(row);
            i = i + 1;
        }
        let last = runners_row(runners);
        rows.push(last);
        SourceDoctorLensInput { components: rows, event_cursor }
    }

    /// Count of components reporting `Healthy`.
    pub fn healthy_count(&self) -> (r: usize)
        ensures
            r == healthy_rows(self.components@),
    {
        let mut count: usize = 0;
        let mut i: usize = 0;
        while i < self.components.len()
            invariant
                i <= self.components@.len(),
                count == healthy_rows(self.components@.take(i as int)),
            decreases self.components@.len() - i,
        {
            proof {
                assert(self.components@.take(i + 1).drop_last() =~= self.components@.take(i as int));
                lemma_healthy_rows_bounded(self.components@.take(i as int));
            }
            if self.components[i].health == HealthLevel::Healthy {
                count = count + 1;
            }
            i = i + 1;
        }
        assert(self.components@.take(self.components@.len() as int) =~= self.components@);
        count
    }

    /// Total components diagnosed.
    pub fn total_count(&self) -> (r: usize)
        ensures
            r == self.components@.len(),
    {
        self.components.len()
    }

    /// The header line: healthy components out of all diagnosed.
    pub fn header_text(&self) -> (r: String)
        ensures
            r@ == doctor_header(self.components@),
    {
        let mut s = "Source Doctor — ".to_owned();
        push_decimal(&mut s, self.healthy_count() as u64);
        s.append("/");
        push_decimal(&mut s, self.total_count() as u64);
        s.append(" components healthy");
        s
    }
}

} // verus!
