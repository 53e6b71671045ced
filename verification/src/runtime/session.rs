//! Session-launch seam for the Agents lens "New Session" affordance.
//!
//! Pressing `n` on the Agents tab creates a fresh, isolated agent session on
//! the repository in scope through a [`SessionLauncher`], which hands back the
//! [`SessionHandle`] the lens attaches its live terminal to.

use vstd::prelude::*;

use crate::text::push_decimal;

verus! {

/// The handle the control plane returns when a new session is created: the
/// agent run to attach to and its isolated working branch.
#[derive(Debug, Clone, PartialEq, Eq)]
pub struct SessionHandle {
    /// The created agent run id (scope `agent_run.{run_id}`).
    pub run_id: String,
    /// The isolated working branch the session operates on.
    pub branch: String,
}

impl SessionHandle {
    /// Build a handle from its run id and working branch.
    pub fn new(run_id: &str, branch: &str) -> (r: SessionHandle)
        ensures
            r.run_id@ == run_id@,
            r.branch@ == branch@,
    {
        SessionHandle { run_id: run_id.to_owned(), branch: branch.to_owned() }
    }
}

/// A creator of isolated agent sessions for a repository.
pub trait SessionLauncher {
    /// Every repository a session was requested for, in call order.
    spec fn requests(&self) -> Seq<Seq<char>>;

    /// Run id and branch of the handle returned by the latest launch, if any.
    spec fn last_handle(&self) -> Option<(Seq<char>, Seq<char>)>;

    /// Create a new isolated session on `repo_id` and return its handle.
    fn create_session(&mut self, repo_id: &str) -> (r: SessionHandle)
        ensures
            final(self).requests() == old(self).requests().push(repo_id@),
            final(self).last_handle() == Some((r.run_id@, r.branch@)),
    ;
}

/// A [`SessionLauncher`] that records every repository it was asked to launch
/// on and mints deterministic handles `agent_run.session-N` /
/// `agent/session-N`, where `N` is the number of launches recorded, so the
/// first launch is numbered 1.
#[derive(Debug, Default)]
pub struct RecordingSessionLauncher {
    /// Every `repo_id` passed to `create_session`, in call order.
    pub requested: Vec<String>,
}

/// The run id minted for launch number `n`.
pub open spec fn minted_run_id(n: nat) -> Seq<char> {
    "agent_run.session-"@ + crate::text::decimal_digits(n)
}

/// The branch minted for launch number `n`.
pub open spec fn minted_branch(n: nat) -> Seq<char> {
    "agent/session-"@ + crate::text::decimal_digits(n)
}

impl RecordingSessionLauncher {
    /// A launcher that has recorded nothing yet.
    pub fn new() -> (r: RecordingSessionLauncher)
        ensures
            r.requested@.len() == 0,
    {
        RecordingSessionLauncher { requested: Vec::new() }
    }

    /// The most recent repository a session launch was requested for.
    pub fn last(&self) -> (r: Option<&String>)
        ensures
            r == (if self.requested@.len() == 0 {
                None::<&String>
            } else {
                Some(&self.requested@.last())
            }),
    {
        if self.requested.len() == 0 {
            None
        } else {
            Some(&self.requested[self.requested.len() - 1])
        }
    }
}

impl SessionLauncher for RecordingSessionLauncher {
    open spec fn requests(&self) -> Seq<Seq<char>> {
        self.requested@.map_values(|r: String| r@)
    }

    open spec fn last_handle(&self) -> Option<(Seq<char>, Seq<char>)> {
        if self.requested@.len() == 0 {
            None
        } else {
            Some(
                (
                    minted_run_id(self.requested@.len()),
                    minted_branch(self.requested@.len()),
                ),
            )
        }
    }

    /// Record `repo_id` and mint the handle numbered by the launches recorded.
    fn create_session(&mut self, repo_id: &str) -> (r: SessionHandle)
        ensures
            final(self).requested@.len() == old(self).requested@.len() + 1,
            final(self).requested@.last()@ == repo_id@,
            final(self).requested@.drop_last() == old(self).requested@,
            r.run_id@ == minted_run_id(final(self).requested@.len()),
            r.branch@ == minted_branch(final(self).requested@.len()),
    {
        self.requested.push(repo_id.to_owned());
        let seq: u64 = self.requested.len() as u64;
        let mut run_id = "agent_run.session-".to_owned();
        push_decimal(&mut run_id, seq);
        let mut branch = "agent/session-".to_owned();
        push_decimal(&mut branch, seq);
        proof {
            assert(self.requested@.map_values(|r: String| r@) =~= old(
                self,
            ).requested@.map_values(|r: String| r@).push(repo_id@));
        }
        SessionHandle { run_id, branch }
    }
}

} // verus!
