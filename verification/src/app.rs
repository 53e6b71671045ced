//! Application state shared by the keyboard router and the frame composer:
//! the tab strip ([`ActiveTab`]) and the routing state ([`App`]).

use vstd::prelude::*;

use crate::focus::state::{focus_for_tab, FocusState};
use crate::lenses::agents::AgentTerminalSession;
use crate::runtime::session::SessionHandle;

verus! {

/// The Flight Deck tabs, in tab-strip order.
#[derive(Debug, Clone, Copy, PartialEq, Eq, Hash, Structural)]
pub enum ActiveTab {
    Workflow,
    Mission,
    Pools,
    Jobs,
    Runners,
    Repos,
    Release,
    Approvals,
    Agents,
    Evidence,
    Tests,
    Cache,
    Bugs,
    LLMs,
    Git,
    Secrets,
    Jankurai,
}

/// Number of tabs in the strip.
pub const TAB_COUNT: usize = 17;

/// Position of a tab in the strip.
pub open spec fn tab_index(t: ActiveTab) -> int {
    match t {
        ActiveTab::Workflow => 0,
        ActiveTab::Mission => 1,
        ActiveTab::Pools => 2,
        ActiveTab::Jobs => 3,
        ActiveTab::Runners => 4,
        ActiveTab::Repos => 5,
        ActiveTab::Release => 6,
        ActiveTab::Approvals => 7,
        ActiveTab::Agents => 8,
        ActiveTab::Evidence => 9,
        ActiveTab::Tests => 10,
        ActiveTab::Cache => 11,
        ActiveTab::Bugs => 12,
        ActiveTab::LLMs => 13,
        ActiveTab::Git => 14,
        ActiveTab::Secrets => 15,
        ActiveTab::Jankurai => 16,
    }
}

/// The tab at strip position `i` (positions past the end wrap to the last tab).
pub open spec fn tab_at(i: int) -> ActiveTab {
    if i == 0 {
        ActiveTab::Workflow
    } else if i == 1 {
        ActiveTab::Mission
    } else if i == 2 {
        ActiveTab::Pools
    } else if i == 3 {
        ActiveTab::Jobs
    } else if i == 4 {
        ActiveTab::Runners
    } else if i == 5 {
        ActiveTab::Repos
    } else if i == 6 {
        ActiveTab::Release
    } else if i == 7 {
        ActiveTab::Approvals
    } else if i == 8 {
        ActiveTab::Agents
    } else if i == 9 {
        ActiveTab::Evidence
    } else if i == 10 {
        ActiveTab::Tests
    } else if i == 11 {
        ActiveTab::Cache
    } else if i == 12 {
        ActiveTab::Bugs
    } else if i == 13 {
        ActiveTab::LLMs
    } else if i == 14 {
        ActiveTab::Git
    } else if i == 15 {
        ActiveTab::Secrets
    } else {
        ActiveTab::Jankurai
    }
}

/// The tab to the right of `t`, wrapping past the last tab.
pub open spec fn next_tab(t: ActiveTab) -> ActiveTab {
    tab_at((tab_index(t) + 1) % 17)
}

/// The tab to the left of `t`, wrapping past the first tab.
pub open spec fn prev_tab(t: ActiveTab) -> ActiveTab {
    tab_at((tab_index(t) + 16) % 17)
}

/// The header label of each tab.
pub open spec fn tab_label(t: ActiveTab) -> Seq<char> {
    match t {
        ActiveTab::Workflow => "Workflow"@,
        ActiveTab::Mission => "Mission"@,
        ActiveTab::Pools => "Pools"@,
        ActiveTab::Jobs => "Jobs"@,
        ActiveTab::Runners => "Runners"@,
        ActiveTab::Repos => "Repos"@,
        ActiveTab::Release => "Release"@,
        ActiveTab::Approvals => "Approvals"@,
        ActiveTab::Agents => "Agents"@,
        ActiveTab::Evidence => "Evidence"@,
        ActiveTab::Tests => "Tests"@,
        ActiveTab::Cache => "Cache"@,
        ActiveTab::Bugs => "Bugs"@,
        ActiveTab::LLMs => "LLMs"@,
        ActiveTab::Git => "Git"@,
        ActiveTab::Secrets => "Secrets"@,
        ActiveTab::Jankurai => "Jankurai"@,
    }
}

impl ActiveTab {
    /// Every tab in strip order.
    pub const ALL: [ActiveTab; 17] = [
        ActiveTab::Workflow,
        ActiveTab::Mission,
        ActiveTab::Pools,
        ActiveTab::Jobs,
        ActiveTab::Runners,
        ActiveTab::Repos,
        ActiveTab::Release,
        ActiveTab::Approvals,
        ActiveTab::Agents,
        ActiveTab::Evidence,
        ActiveTab::Tests,
        ActiveTab::Cache,
        ActiveTab::Bugs,
        ActiveTab::LLMs,
        ActiveTab::Git,
        ActiveTab::Secrets,
        ActiveTab::Jankurai,
    ];

    /// Position of this tab in the strip.
    pub fn index(self) -> (r: usize)
        ensures
            r == tab_index(self),
            r < TAB_COUNT,
    {
        match self {
            ActiveTab::Workflow => 0,
            ActiveTab::Mission => 1,
            ActiveTab::Pools => 2,
            ActiveTab::Jobs => 3,
            ActiveTab::Runners => 4,
            ActiveTab::Repos => 5,
            ActiveTab::Release => 6,
            ActiveTab::Approvals => 7,
            ActiveTab::Agents => 8,
            ActiveTab::Evidence => 9,
            ActiveTab::Tests => 10,
            ActiveTab::Cache => 11,
            ActiveTab::Bugs => 12,
            ActiveTab::LLMs => 13,
            ActiveTab::Git => 14,
            ActiveTab::Secrets => 15,
            ActiveTab::Jankurai => 16,
        }
    }

    /// The tab at strip position `i`, if there is one.
    pub fn from_index(i: usize) -> (r: Option<ActiveTab>)
        ensures
            r == (if i < TAB_COUNT { Some(tab_at(i as int)) } else { None::<ActiveTab> }),
    {
        if i == 0 {
            Some(ActiveTab::Workflow)
        } else if i == 1 {
            Some(ActiveTab::Mission)
        } else if i == 2 {
            Some(ActiveTab::Pools)
        } else if i == 3 {
            Some(ActiveTab::Jobs)
        } else if i == 4 {
            Some(ActiveTab::Runners)
        } else if i == 5 {
            Some(ActiveTab::Repos)
        } else if i == 6 {
            Some(ActiveTab::Release)
        } else if i == 7 {
            Some(ActiveTab::Approvals)
        } else if i == 8 {
            Some(ActiveTab::Agents)
        } else if i == 9 {
            Some(ActiveTab::Evidence)
        } else if i == 10 {
            Some(ActiveTab::Tests)
        } else if i == 11 {
            Some(ActiveTab::Cache)
        } else if i == 12 {
            Some(ActiveTab::Bugs)
        } else if i == 13 {
            Some(ActiveTab::LLMs)
        } else if i == 14 {
            Some(ActiveTab::Git)
        } else if i == 15 {
            Some(ActiveTab::Secrets)
        } else if i == 16 {
            Some(ActiveTab::Jankurai)
        } else {
            None
        }
    }

    /// The tab selected by a digit key (`0`..`9` pick the first ten tabs).
    pub fn from_number(n: u8) -> (r: Option<ActiveTab>)
        ensures
            r == (if n <= 9 { Some(tab_at(n as int)) } else { None::<ActiveTab> }),
    {
        if n <= 9 {
            Self::from_index(n as usize)
        } else {
            None
        }
    }

    /// The next tab to the right (wraps to the first).
    pub fn next(self) -> (r: ActiveTab)
        ensures
            r == next_tab(self),
    {
        let i = self.index();
        let j: usize = (i + 1) % TAB_COUNT;
        match Self::from_index(j) {
            Some(t) => t,
            None => ActiveTab::Workflow,
        }
    }

    /// The previous tab to the left (wraps to the last).
    pub fn prev(self) -> (r: ActiveTab)
        ensures
            r == prev_tab(self),
    {
        let i = self.index();
        let j: usize = (i + TAB_COUNT - 1) % TAB_COUNT;
        match Self::from_index(j) {
            Some(t) => t,
            None => ActiveTab::Workflow,
        }
    }

    /// Header label of the tab.
    pub fn label(self) -> (r: &'static str)
        ensures
            r@ == tab_label(self),
    {
        match self {
            ActiveTab::Workflow => "Workflow",
            ActiveTab::Mission => "Mission",
            ActiveTab::Pools => "Pools",
            ActiveTab::Jobs => "Jobs",
            ActiveTab::Runners => "Runners",
            ActiveTab::Repos => "Repos",
            ActiveTab::Release => "Release",
            ActiveTab::Approvals => "Approvals",
            ActiveTab::Agents => "Agents",
            ActiveTab::Evidence => "Evidence",
            ActiveTab::Tests => "Tests",
            ActiveTab::Cache => "Cache",
            ActiveTab::Bugs => "Bugs",
            ActiveTab::LLMs => "LLMs",
            ActiveTab::Git => "Git",
            ActiveTab::Secrets => "Secrets",
            ActiveTab::Jankurai => "Jankurai",
        }
    }
}

/// Strip positions and tabs are in one-to-one correspondence.
pub proof fn lemma_tab_index_roundtrip(t: ActiveTab)
    ensures
        tab_index(t) < TAB_COUNT,
        tab_at(tab_index(t) as int) == t,
{
}

/// Moving right then left (or left then right) returns to the same tab.
pub proof fn lemma_next_prev_inverse(t: ActiveTab)
    ensures
        prev_tab(next_tab(t)) == t,
        next_tab(prev_tab(t)) == t,
{
}

/// Lifecycle of a "New Session" launch.
#[derive(Debug, Clone, Copy, PartialEq, Eq, Structural)]
pub enum SessionLaunchPhase {
    /// The launch intent fired; the control plane has not answered yet.
    Pending,
    /// The control plane returned a run and its terminal is attached.
    Attached,
}

/// A "New Session" launch on a repository, as shown in the Agents banner.
#[derive(Debug, Clone, PartialEq, Eq)]
pub struct SessionLaunch {
    pub phase: SessionLaunchPhase,
    pub repo_id: String,
    pub run_id: Option<String>,
    pub branch: Option<String>,
}

/// The lifecycle word of a launch phase.
pub open spec fn launch_status_label(p: SessionLaunchPhase) -> Seq<char> {
    match p {
        SessionLaunchPhase::Pending => "pending"@,
        SessionLaunchPhase::Attached => "attached"@,
    }
}

impl SessionLaunch {
    /// A launch on `repo_id` whose intent just fired.
    pub fn pending(repo_id: &str) -> (r: SessionLaunch)
        ensures
            r.phase == SessionLaunchPhase::Pending,
            r.repo_id@ == repo_id@,
            r.run_id is None,
            r.branch is None,
    {
        SessionLaunch {
            phase: SessionLaunchPhase::Pending,
            repo_id: repo_id.to_owned(),
            run_id: None,
            branch: None,
        }
    }

    /// A launch on `repo_id` attached to the run the control plane returned.
    pub fn attach(repo_id: &str, handle: &SessionHandle) -> (r: SessionLaunch)
        ensures
            r.phase == SessionLaunchPhase::Attached,
            r.repo_id@ == repo_id@,
            r.run_id == Some(handle.run_id),
            r.branch == Some(handle.branch),
    {
        SessionLaunch {
            phase: SessionLaunchPhase::Attached,
            repo_id: repo_id.to_owned(),
            run_id: Some(handle.run_id.clone()),
            branch: Some(handle.branch.clone()),
        }
    }

    /// The lifecycle word of the launch.
    pub fn status_label(&self) -> (r: &'static str)
        ensures
            r@ == launch_status_label(self.phase),
    {
        match self.phase {
            SessionLaunchPhase::Pending => "pending",
            SessionLaunchPhase::Attached => "attached",
        }
    }
}

/// Routing state of the Flight Deck: the active tab and its focus, the live
/// agent terminal and the last session launch, plus the identifiers the router
/// reads from the read-model snapshot (the repositories in scope and the agent
/// sessions listed on the Agents tab, in snapshot order).
pub struct App {
    pub active_tab: ActiveTab,
    pub focus: FocusState,
    pub terminal: Option<AgentTerminalSession>,
    pub session_launch: Option<SessionLaunch>,
    pub repo_ids: Vec<String>,
    pub agent_session_ids: Vec<String>,
}

impl App {
    /// An app on the workflow tab for a snapshot with the given repositories
    /// and agent sessions; no terminal, no launch.
    pub fn new(repo_ids: Vec<String>, agent_session_ids: Vec<String>) -> (r: App)
        ensures
            r.active_tab == ActiveTab::Workflow,
            r.focus@ == focus_for_tab(ActiveTab::Workflow),
            r.terminal is None,
            r.session_launch is None,
            r.repo_ids == repo_ids,
            r.agent_session_ids == agent_session_ids,
    {
        App {
            active_tab: ActiveTab::Workflow,
            focus: FocusState::for_tab(ActiveTab::Workflow),
            terminal: None,
            session_launch: None,
            repo_ids,
            agent_session_ids,
        }
    }

    /// Switch to `tab` and focus its default pane.
    pub fn set_tab(&mut self, tab: ActiveTab)
        ensures
            final(self).active_tab == tab,
            final(self).focus@ == focus_for_tab(tab),
            final(self).terminal == old(self).terminal,
            final(self).session_launch == old(self).session_launch,
            final(self).repo_ids == old(self).repo_ids,
            final(self).agent_session_ids == old(self).agent_session_ids,
    {
        self.active_tab = tab;
        self.focus.set_tab(tab);
    }
}

impl Default for App {
    /// The workflow tab of an empty snapshot.
    fn default() -> (r: App)
        ensures
            r.active_tab == ActiveTab::Workflow,
            r.focus@ == focus_for_tab(ActiveTab::Workflow),
            r.terminal is None,
            r.session_launch is None,
            r.repo_ids@.len() == 0,
            r.agent_session_ids@.len() == 0,
    {
        App::new(Vec::new(), Vec::new())
    }
}

} // verus!
