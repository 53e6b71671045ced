//! Secrets lens data: a pure projection of the secret-audit ledger.
//!
//! The lens carries only audit metadata (time, action, status, repository);
//! it never carries a secret value, a rotation target or vaulted detail.

use vstd::prelude::*;


use crate::text::{chars_of, decimal_digits, push_decimal, string_from_prefix};

verus! {

/// One secret-audit event as recorded by the vault integration.
#[derive(Debug, Clone, Default)]
pub struct SecretAuditEvent {
    pub id: Option<i64>,
    pub repo_name: String,
    pub version: String,
    pub target: String,
    pub action: String,
    pub status: String,
    pub detail: String,
    pub created_at: String,
}

/// One secret-audit row: metadata fields only.
#[derive(Debug, Clone, Default, PartialEq, Eq)]
pub struct SecretAuditRow {
    pub created_at: String,
    pub action: String,
    pub status: String,
    pub repo_name: String,
}

/// The audit row projected from one event: time, action, status and
/// repository, nothing else.
pub open spec fn secret_row_of(e: SecretAuditEvent) -> SecretAuditRow {
    SecretAuditRow {
        created_at: e.created_at,
        action: e.action,
        status: e.status,
        repo_name: e.repo_name,
    }
}

impl SecretAuditRow {
    /// Copy the metadata fields of one audit event.
    pub fn from_event(ev: &SecretAuditEvent) -> (r: SecretAuditRow)
        ensures
            r == secret_row_of(*ev),
    {
        SecretAuditRow {
            created_at: ev.created_at.clone(),
            action: ev.action.clone(),
            status: ev.status.clone(),
            repo_name: ev.repo_name.clone(),
        }
    }
}

/// Render-ready projection of the secrets lens.
#[derive(Debug, Clone, Default)]
pub struct SecretsLensInput {
    pub events: Vec<SecretAuditRow>,
    pub selected: usize,
    pub vault_status: String,
    pub active_grants: u32,
    pub active_taints: u32,
}

/// The selection clamped to the last row, or none for an empty ledger.
pub open spec fn clamped(len: nat, selected: usize) -> Option<int> {
    if len == 0 {
        None
    } else if selected < len {
        Some(selected as int)
    } else {
        Some(len - 1)
    }
}

impl SecretsLensInput {
    /// One row per audit event, in ledger order; the selection is kept as
    /// given and the vault posture fields start empty.
    pub fn from_state(events: &[SecretAuditEvent], selected: usize) -> (r: SecretsLensInput)
        ensures
            r.events@ == events@.map_values(|e: SecretAuditEvent| secret_row_of(e)),
            r.selected == selected,
            r.vault_status@ == Seq::<char>::empty(),
            r.active_grants == 0,
            r.active_taints == 0,
    {
        let mut rows: Vec<SecretAuditRow> = Vec::new();
        let mut i: usize = 0;
        while i < events.len()
            invariant
                i <= events@.len(),
                rows@ == events@.take(i as int).map_values(|e: SecretAuditEvent| secret_row_of(e)),
            decreases events@.len() - i,
        {
            let row = SecretAuditRow::from_event(&events[i]);
            rows.push(row);
            proof {
                assert(events@.take(i + 1) =~= events@.take(i as int).push(events@[i as int]));
            }
            i = i + 1;
            assert(rows@ =~= events@.take(i as int).map_values(
                |e: SecretAuditEvent| secret_row_of(e),
            ));
        }
        assert(events@.take(events@.len() as int) =~= events@);
        SecretsLensInput {
            events: rows,
            selected,
            vault_status: String::new(),
            active_grants: 0,
            active_taints: 0,
        }
    }

    /// The selection clamped into the ledger, `None` when it is empty.
    pub fn clamped_selection(&self) -> (r: Option<usize>)
        ensures
            match r {
                Some(i) => clamped(self.events@.len(), self.selected) == Some(i as int),
                None => clamped(self.events@.len(), self.selected) is None,
            },
    {
        if self.events.len() == 0 {
            None
        } else if self.selected < self.events.len() {
            Some(self.selected)
        } else {
            Some(self.events.len() - 1)
        }
    }

    /// The row under the (clamped) selection.
    pub fn selected_row(&self) -> (r: Option<&SecretAuditRow>)
        ensures
            match clamped(self.events@.len(), self.selected) {
                Some(i) => r == Some(&self.events@[i]),
                None => r is None,
            },
    {
        match self.clamped_selection() {
            Some(i) => Some(&self.events[i]),
            None => None,
        }
    }
}

/// The first sixteen characters of a timestamp (`YYYY-MM-DDThh:mm`), or the
/// whole text when it is shorter.
pub open spec fn short_ts_chars(t: Seq<char>) -> Seq<char> {
    if t.len() > 16 {
        t.take(16)
    } else {
        t
    }
}

/// First 16 characters of the timestamp (`YYYY-MM-DDThh:mm`); a shorter
/// timestamp comes back whole.
pub fn short_ts(created_at: &str) -> (r: String)
    ensures
        r@ == short_ts_chars(created_at@),
{
    let chars = chars_of(created_at);
    let keep: usize = if chars.len() > 16 {
        16
    } else {
        chars.len()
    };
    proof {
        assert(chars@.take(chars@.len() as int) =~= chars@);
    }
    string_from_prefix(chars.as_slice(), keep)
}

/// Vault posture text shown in the detail pane when nothing is selected.
pub const VAULT_STATUS_TEXT: &'static str = "\n  Vault integration active.\n\n  Events appear here as secrets\n  are rotated, fetched, or revoked.\n\n  [RISK] = Security event requiring review.";

/// The header line of the audit table.
pub open spec fn secrets_header(n: nat) -> Seq<char> {
    "Secrets — "@ + decimal_digits(n) + " audit events"@
}

/// The detail pane of a selected audit row: repository, action, status and
/// time only.
pub open spec fn secret_detail(row: SecretAuditRow) -> Seq<char> {
    "\n  Repo:     "@ + row.repo_name@ + "\n  Action:   "@ + row.action@ + "\n  Status:   "@
        + row.status@ + "\n  Created:  "@ + row.created_at@ + "\n"@
}

impl SecretsLensInput {
    /// The header line: the number of audit events.
    pub fn header_text(&self) -> (r: String)
        ensures
            r@ == secrets_header(self.events@.len()),
    {
        let mut s = "Secrets — ".to_owned();
        push_decimal(&mut s, self.events.len() as u64);
        s.append(" audit events");
        s
    }

    /// The detail pane: the selected row's metadata, or the vault posture text
    /// when the ledger is empty. It never carries a secret value.
    pub fn detail_text(&self) -> (r: String)
        ensures
            match clamped(self.events@.len(), self.selected) {
                Some(i) => r@ == secret_detail(self.events@[i]),
                None => r@ == VAULT_STATUS_TEXT@,
            },
    {
        match self.selected_row() {
            Some(ev) => {
                let mut s = "\n  Repo:     ".to_owned();
                s.append(ev.repo_name.as_str());
                s.append("\n  Action:   ");
                s.append(ev.action.as_str());
                s.append("\n  Status:   ");
                s.append(ev.status.as_str());
                s.append("\n  Created:  ");
                s.append(ev.created_at.as_str());
                s.append("\n");
                s
            },
            None => VAULT_STATUS_TEXT.to_owned(),
        }
    }
}

} // verus!
