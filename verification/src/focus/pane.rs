//! Focus pane identifiers.
//!
//! Every Flight Deck pane is identified by one [`PaneId`] variant. Tab
//! membership ([`PaneId::tab`]), labels ([`PaneId::label`]) and the default pane
//! of each tab ([`PaneId::default_for_tab`]) are total over the variant set, and
//! [`PaneId::FleetBar`] is the only pane shared by every tab.

use vstd::prelude::*;

use crate::app::{tab_label, ActiveTab};

verus! {

/// Identity of one bordered pane.
#[derive(Debug, Clone, Copy, PartialEq, Eq, Hash, Structural)]
pub enum PaneId {
    /// Global fleet bar, visible on every tab above the content area.
    FleetBar,
    WorkflowMissionStrip,
    WorkflowPrRail,
    WorkflowPhaseRail,
    WorkflowCanvas,
    WorkflowMinimap,
    WorkflowInspector,
    /// The activity / log pane of one tab.
    ActivityLog(ActiveTab),
    MissionTopSignal,
    MissionReadiness,
    MissionMetrics,
    MissionAttention,
    MissionProofLanes,
    MissionActions,
    ReleaseSelector,
    ReleasePipeline,
    ReleaseInspector,
    ReleaseRollback,
    ApprovalsQueue,
    ApprovalsInspector,
    JobsRunnerFeed,
    JobsProgress,
    JobsMatrix,
    JobsInspector,
    AgentsSessions,
    AgentsCockpit,
    AgentsTimeline,
    AgentsActions,
    TestsBottlenecks,
    TestsHistory,
    PoolsList,
    PoolsDetail,
    RunnersPools,
    RunnersDetail,
    CacheDisk,
    CacheStorage,
    CacheGateway,
    CacheSingleflight,
    CacheTaint,
    EvidenceList,
    EvidenceDetail,
    ReposLens,
    BugsProjects,
    BugsTable,
    BugsInspector,
    SecretsList,
    SecretsDetail,
    LLMsPolicyMatrix,
    LLMsPolicySplit,
    GitLedger,
    JankSummary,
    JankStatus,
    JankScoreChart,
    JankBreakdown,
    JankIssues,
    JankEntryDetail,
}

/// Spatial navigation direction between panes.
#[derive(Debug, Clone, Copy, PartialEq, Eq, Structural)]
pub enum NavDirection {
    Up,
    Down,
    Left,
    Right,
}

/// The tab that owns a pane; the global fleet bar reports the workflow tab.
pub open spec fn pane_tab(p: PaneId) -> ActiveTab {
    match p {
        PaneId::FleetBar => ActiveTab::Workflow,
        PaneId::ActivityLog(t) => t,
        PaneId::WorkflowMissionStrip | PaneId::WorkflowPrRail | PaneId::WorkflowPhaseRail | PaneId::WorkflowCanvas | PaneId::WorkflowMinimap | PaneId::WorkflowInspector => ActiveTab::Workflow,
        PaneId::MissionTopSignal | PaneId::MissionReadiness | PaneId::MissionMetrics | PaneId::MissionAttention | PaneId::MissionProofLanes | PaneId::MissionActions => ActiveTab::Mission,
        PaneId::ReleaseSelector | PaneId::ReleasePipeline | PaneId::ReleaseInspector | PaneId::ReleaseRollback => ActiveTab::Release,
        PaneId::ApprovalsQueue | PaneId::ApprovalsInspector => ActiveTab::Approvals,
        PaneId::JobsRunnerFeed | PaneId::JobsProgress | PaneId::JobsMatrix | PaneId::JobsInspector => ActiveTab::Jobs,
        PaneId::AgentsSessions | PaneId::AgentsCockpit | PaneId::AgentsTimeline | PaneId::AgentsActions => ActiveTab::Agents,
        PaneId::TestsBottlenecks | PaneId::TestsHistory => ActiveTab::Tests,
        PaneId::PoolsList | PaneId::PoolsDetail => ActiveTab::Pools,
        PaneId::RunnersPools | PaneId::RunnersDetail => ActiveTab::Runners,
        PaneId::CacheDisk | PaneId::CacheStorage | PaneId::CacheGateway | PaneId::CacheSingleflight | PaneId::CacheTaint => ActiveTab::Cache,
        PaneId::EvidenceList | PaneId::EvidenceDetail => ActiveTab::Evidence,
        PaneId::ReposLens => ActiveTab::Repos,
        PaneId::BugsProjects | PaneId::BugsTable | PaneId::BugsInspector => ActiveTab::Bugs,
        PaneId::SecretsList | PaneId::SecretsDetail => ActiveTab::Secrets,
        PaneId::LLMsPolicyMatrix | PaneId::LLMsPolicySplit => ActiveTab::LLMs,
        PaneId::GitLedger => ActiveTab::Git,
        PaneId::JankSummary | PaneId::JankStatus | PaneId::JankScoreChart | PaneId::JankBreakdown | PaneId::JankIssues | PaneId::JankEntryDetail => ActiveTab::Jankurai,
    }
}

/// The display label of a pane.
pub open spec fn pane_label(p: PaneId) -> Seq<char> {
    match p {
        PaneId::ActivityLog(t) => "Activity / Logs ("@ + tab_label(t) + ")"@,
        PaneId::FleetBar => "Fleet"@,
        PaneId::WorkflowMissionStrip => "Mission Strip"@,
        PaneId::WorkflowPrRail => "PRs"@,
        PaneId::WorkflowPhaseRail => "Phase"@,
        PaneId::WorkflowCanvas => "Canvas"@,
        PaneId::WorkflowMinimap => "Map"@,
        PaneId::WorkflowInspector => "Inspector"@,
        PaneId::MissionTopSignal => "Top Signal"@,
        PaneId::MissionReadiness => "Readiness"@,
        PaneId::MissionMetrics => "Metrics"@,
        PaneId::MissionAttention => "Attention"@,
        PaneId::MissionProofLanes => "Proof Lanes"@,
        PaneId::MissionActions => "Actions"@,
        PaneId::ReleaseSelector => "Subpane Selector"@,
        PaneId::ReleasePipeline => "Release"@,
        PaneId::ReleaseInspector => "Inspector"@,
        PaneId::ReleaseRollback => "Rollback"@,
        PaneId::ApprovalsQueue => "Approvals"@,
        PaneId::ApprovalsInspector => "Inspector"@,
        PaneId::JobsRunnerFeed => "Runner Feed"@,
        PaneId::JobsProgress => "Progress"@,
        PaneId::JobsMatrix => "Job Matrix"@,
        PaneId::JobsInspector => "Inspector"@,
        PaneId::AgentsSessions => "Sessions"@,
        PaneId::AgentsCockpit => "Cockpit"@,
        PaneId::AgentsTimeline => "Timeline"@,
        PaneId::AgentsActions => "Actions"@,
        PaneId::TestsBottlenecks => "Bottlenecks"@,
        PaneId::TestsHistory => "History"@,
        PaneId::PoolsList => "Pools"@,
        PaneId::PoolsDetail => "Detail"@,
        PaneId::RunnersPools => "Pools/Health"@,
        PaneId::RunnersDetail => "Pool Detail"@,
        PaneId::CacheDisk => "Disk"@,
        PaneId::CacheStorage => "Storage"@,
        PaneId::CacheGateway => "Gateway"@,
        PaneId::CacheSingleflight => "Singleflight"@,
        PaneId::CacheTaint => "Taint"@,
        PaneId::EvidenceList => "Evidence"@,
        PaneId::EvidenceDetail => "Detail"@,
        PaneId::ReposLens => "Repos"@,
        PaneId::BugsProjects => "Projects"@,
        PaneId::BugsTable => "Bugs"@,
        PaneId::BugsInspector => "Inspector"@,
        PaneId::SecretsList => "Secrets"@,
        PaneId::SecretsDetail => "Detail"@,
        PaneId::LLMsPolicyMatrix => "Policy Matrix"@,
        PaneId::LLMsPolicySplit => "Policy Split"@,
        PaneId::GitLedger => "Ledger"@,
        PaneId::JankSummary => "Jankurai Summary"@,
        PaneId::JankStatus => "Jankurai Status"@,
        PaneId::JankScoreChart => "Score History"@,
        PaneId::JankBreakdown => "Last Scan Dimensions"@,
        PaneId::JankIssues => "Caps / Findings"@,
        PaneId::JankEntryDetail => "Entry Detail"@,
    }
}

/// The pane focused when a tab is entered.
pub open spec fn default_pane(t: ActiveTab) -> PaneId {
    match t {
        ActiveTab::Workflow => PaneId::WorkflowPrRail,
        ActiveTab::Mission => PaneId::MissionTopSignal,
        ActiveTab::Release => PaneId::ReleaseSelector,
        ActiveTab::Approvals => PaneId::ApprovalsQueue,
        ActiveTab::Jobs => PaneId::JobsRunnerFeed,
        ActiveTab::Agents => PaneId::AgentsSessions,
        ActiveTab::Tests => PaneId::TestsBottlenecks,
        ActiveTab::Pools => PaneId::PoolsList,
        ActiveTab::Runners => PaneId::RunnersPools,
        ActiveTab::Cache => PaneId::CacheDisk,
        ActiveTab::Evidence => PaneId::EvidenceList,
        ActiveTab::Repos => PaneId::ReposLens,
        ActiveTab::Bugs => PaneId::BugsTable,
        ActiveTab::Secrets => PaneId::SecretsList,
        ActiveTab::LLMs => PaneId::LLMsPolicyMatrix,
        ActiveTab::Git => PaneId::GitLedger,
        ActiveTab::Jankurai => PaneId::JankIssues,
    }
}

/// The panes of a tab, in focus-cycle order.
#[verifier::opaque]
pub open spec fn tab_panes(t: ActiveTab) -> Seq<PaneId> {
    match t {
        ActiveTab::Workflow => seq![PaneId::WorkflowMissionStrip, PaneId::WorkflowPrRail, PaneId::WorkflowPhaseRail, PaneId::WorkflowCanvas, PaneId::WorkflowMinimap, PaneId::WorkflowInspector, PaneId::ActivityLog(ActiveTab::Workflow)],
        ActiveTab::Mission => seq![PaneId::MissionTopSignal, PaneId::MissionReadiness, PaneId::MissionMetrics, PaneId::MissionAttention, PaneId::MissionProofLanes, PaneId::MissionActions, PaneId::ActivityLog(ActiveTab::Mission)],
        ActiveTab::Release => seq![PaneId::ReleaseSelector, PaneId::ReleasePipeline, PaneId::ReleaseInspector, PaneId::ReleaseRollback, PaneId::ActivityLog(ActiveTab::Release)],
        ActiveTab::Approvals => seq![PaneId::ApprovalsQueue, PaneId::ApprovalsInspector, PaneId::ActivityLog(ActiveTab::Approvals)],
        ActiveTab::Jobs => seq![PaneId::JobsRunnerFeed, PaneId::JobsProgress, PaneId::JobsMatrix, PaneId::JobsInspector, PaneId::ActivityLog(ActiveTab::Jobs)],
        ActiveTab::Agents => seq![PaneId::AgentsSessions, PaneId::AgentsCockpit, PaneId::AgentsTimeline, PaneId::AgentsActions, PaneId::ActivityLog(ActiveTab::Agents)],
        ActiveTab::Tests => seq![PaneId::TestsBottlenecks, PaneId::TestsHistory, PaneId::ActivityLog(ActiveTab::Tests)],
        ActiveTab::Pools => seq![PaneId::PoolsList, PaneId::PoolsDetail, PaneId::ActivityLog(ActiveTab::Pools)],
        ActiveTab::Runners => seq![PaneId::RunnersPools, PaneId::RunnersDetail, PaneId::ActivityLog(ActiveTab::Runners)],
        ActiveTab::Cache => seq![PaneId::CacheDisk, PaneId::CacheStorage, PaneId::CacheGateway, PaneId::CacheSingleflight, PaneId::CacheTaint, PaneId::ActivityLog(ActiveTab::Cache)],
        ActiveTab::Evidence => seq![PaneId::EvidenceList, PaneId::EvidenceDetail, PaneId::ActivityLog(ActiveTab::Evidence)],
        ActiveTab::Repos => seq![PaneId::ReposLens, PaneId::ActivityLog(ActiveTab::Repos)],
        ActiveTab::Bugs => seq![PaneId::BugsProjects, PaneId::BugsTable, PaneId::BugsInspector, PaneId::ActivityLog(ActiveTab::Bugs)],
        ActiveTab::Secrets => seq![PaneId::SecretsList, PaneId::SecretsDetail, PaneId::ActivityLog(ActiveTab::Secrets)],
        ActiveTab::LLMs => seq![PaneId::LLMsPolicyMatrix, PaneId::LLMsPolicySplit, PaneId::ActivityLog(ActiveTab::LLMs)],
        ActiveTab::Git => seq![PaneId::GitLedger, PaneId::ActivityLog(ActiveTab::Git)],
        ActiveTab::Jankurai => seq![PaneId::JankSummary, PaneId::JankStatus, PaneId::JankScoreChart, PaneId::JankBreakdown, PaneId::JankIssues, PaneId::JankEntryDetail],
    }
}

impl PaneId {
    /// Returns `true` for panes that appear on every tab (the fleet bar).
    pub fn is_global(self) -> (r: bool)
        ensures
            r == (self == PaneId::FleetBar),
    {
        match self {
            PaneId::FleetBar => true,
            _ => false,
        }
    }

    /// The tab this pane belongs to. The fleet bar is global and reports the
    /// workflow tab; callers check [`PaneId::is_global`] first when it matters.
    pub fn tab(self) -> (r: ActiveTab)
        ensures
            r == pane_tab(self),
    {
        match self {
            PaneId::FleetBar => ActiveTab::Workflow,
            PaneId::ActivityLog(t) => t,
            PaneId::WorkflowMissionStrip | PaneId::WorkflowPrRail | PaneId::WorkflowPhaseRail | PaneId::WorkflowCanvas | PaneId::WorkflowMinimap | PaneId::WorkflowInspector => ActiveTab::Workflow,
            PaneId::MissionTopSignal | PaneId::MissionReadiness | PaneId::MissionMetrics | PaneId::MissionAttention | PaneId::MissionProofLanes | PaneId::MissionActions => ActiveTab::Mission,
            PaneId::ReleaseSelector | PaneId::ReleasePipeline | PaneId::ReleaseInspector | PaneId::ReleaseRollback => ActiveTab::Release,
            PaneId::ApprovalsQueue | PaneId::ApprovalsInspector => ActiveTab::Approvals,
            PaneId::JobsRunnerFeed | PaneId::JobsProgress | PaneId::JobsMatrix | PaneId::JobsInspector => ActiveTab::Jobs,
            PaneId::AgentsSessions | PaneId::AgentsCockpit | PaneId::AgentsTimeline | PaneId::AgentsActions => ActiveTab::Agents,
            PaneId::TestsBottlenecks | PaneId::TestsHistory => ActiveTab::Tests,
            PaneId::PoolsList | PaneId::PoolsDetail => ActiveTab::Pools,
            PaneId::RunnersPools | PaneId::RunnersDetail => ActiveTab::Runners,
            PaneId::CacheDisk | PaneId::CacheStorage | PaneId::CacheGateway | PaneId::CacheSingleflight | PaneId::CacheTaint => ActiveTab::Cache,
            PaneId::EvidenceList | PaneId::EvidenceDetail => ActiveTab::Evidence,
            PaneId::ReposLens => ActiveTab::Repos,
            PaneId::BugsProjects | PaneId::BugsTable | PaneId::BugsInspector => ActiveTab::Bugs,
            PaneId::SecretsList | PaneId::SecretsDetail => ActiveTab::Secrets,
            PaneId::LLMsPolicyMatrix | PaneId::LLMsPolicySplit => ActiveTab::LLMs,
            PaneId::GitLedger => ActiveTab::Git,
            PaneId::JankSummary | PaneId::JankStatus | PaneId::JankScoreChart | PaneId::JankBreakdown | PaneId::JankIssues | PaneId::JankEntryDetail => ActiveTab::Jankurai,
        }
    }

    /// The pane's display label.
    pub fn label(self) -> (r: String)
        ensures
            r@ == pane_label(self),
    {
        match self {
            PaneId::ActivityLog(t) => {
                let mut s = "Activity / Logs (".to_owned();
                s.append(t.label());
                s.append(")");
                s
            },
            PaneId::FleetBar => "Fleet".to_owned(),
            PaneId::WorkflowMissionStrip => "Mission Strip".to_owned(),
            PaneId::WorkflowPrRail => "PRs".to_owned(),
            PaneId::WorkflowPhaseRail => "Phase".to_owned(),
            PaneId::WorkflowCanvas => "Canvas".to_owned(),
            PaneId::WorkflowMinimap => "Map".to_owned(),
            PaneId::WorkflowInspector => "Inspector".to_owned(),
            PaneId::MissionTopSignal => "Top Signal".to_owned(),
            PaneId::MissionReadiness => "Readiness".to_owned(),
            PaneId::MissionMetrics => "Metrics".to_owned(),
            PaneId::MissionAttention => "Attention".to_owned(),
            PaneId::MissionProofLanes => "Proof Lanes".to_owned(),
            PaneId::MissionActions => "Actions".to_owned(),
            PaneId::ReleaseSelector => "Subpane Selector".to_owned(),
            PaneId::ReleasePipeline => "Release".to_owned(),
            PaneId::ReleaseInspector => "Inspector".to_owned(),
            PaneId::ReleaseRollback => "Rollback".to_owned(),
            PaneId::ApprovalsQueue => "Approvals".to_owned(),
            PaneId::ApprovalsInspector => "Inspector".to_owned(),
            PaneId::JobsRunnerFeed => "Runner Feed".to_owned(),
            PaneId::JobsProgress => "Progress".to_owned(),
            PaneId::JobsMatrix => "Job Matrix".to_owned(),
            PaneId::JobsInspector => "Inspector".to_owned(),
            PaneId::AgentsSessions => "Sessions".to_owned(),
            PaneId::AgentsCockpit => "Cockpit".to_owned(),
            PaneId::AgentsTimeline => "Timeline".to_owned(),
            PaneId::AgentsActions => "Actions".to_owned(),
            PaneId::TestsBottlenecks => "Bottlenecks".to_owned(),
            PaneId::TestsHistory => "History".to_owned(),
            PaneId::PoolsList => "Pools".to_owned(),
            PaneId::PoolsDetail => "Detail".to_owned(),
            PaneId::RunnersPools => "Pools/Health".to_owned(),
            PaneId::RunnersDetail => "Pool Detail".to_owned(),
            PaneId::CacheDisk => "Disk".to_owned(),
            PaneId::CacheStorage => "Storage".to_owned(),
            PaneId::CacheGateway => "Gateway".to_owned(),
            PaneId::CacheSingleflight => "Singleflight".to_owned(),
            PaneId::CacheTaint => "Taint".to_owned(),
            PaneId::EvidenceList => "Evidence".to_owned(),
            PaneId::EvidenceDetail => "Detail".to_owned(),
            PaneId::ReposLens => "Repos".to_owned(),
            PaneId::BugsProjects => "Projects".to_owned(),
            PaneId::BugsTable => "Bugs".to_owned(),
            PaneId::BugsInspector => "Inspector".to_owned(),
            PaneId::SecretsList => "Secrets".to_owned(),
            PaneId::SecretsDetail => "Detail".to_owned(),
            PaneId::LLMsPolicyMatrix => "Policy Matrix".to_owned(),
            PaneId::LLMsPolicySplit => "Policy Split".to_owned(),
            PaneId::GitLedger => "Ledger".to_owned(),
            PaneId::JankSummary => "Jankurai Summary".to_owned(),
            PaneId::JankStatus => "Jankurai Status".to_owned(),
            PaneId::JankScoreChart => "Score History".to_owned(),
            PaneId::JankBreakdown => "Last Scan Dimensions".to_owned(),
            PaneId::JankIssues => "Caps / Findings".to_owned(),
            PaneId::JankEntryDetail => "Entry Detail".to_owned(),
        }
    }

    /// The pane focused when `tab` is entered.
    pub fn default_for_tab(tab: ActiveTab) -> (r: PaneId)
        ensures
            r == default_pane(tab),
    {
        match tab {
            ActiveTab::Workflow => PaneId::WorkflowPrRail,
            ActiveTab::Mission => PaneId::MissionTopSignal,
            ActiveTab::Release => PaneId::ReleaseSelector,
            ActiveTab::Approvals => PaneId::ApprovalsQueue,
            ActiveTab::Jobs => PaneId::JobsRunnerFeed,
            ActiveTab::Agents => PaneId::AgentsSessions,
            ActiveTab::Tests => PaneId::TestsBottlenecks,
            ActiveTab::Pools => PaneId::PoolsList,
            ActiveTab::Runners => PaneId::RunnersPools,
            ActiveTab::Cache => PaneId::CacheDisk,
            ActiveTab::Evidence => PaneId::EvidenceList,
            ActiveTab::Repos => PaneId::ReposLens,
            ActiveTab::Bugs => PaneId::BugsTable,
            ActiveTab::Secrets => PaneId::SecretsList,
            ActiveTab::LLMs => PaneId::LLMsPolicyMatrix,
            ActiveTab::Git => PaneId::GitLedger,
            ActiveTab::Jankurai => PaneId::JankIssues,
        }
    }

    /// The panes of `tab`, in focus-cycle order.
    pub fn panes_for_tab(tab: ActiveTab) -> (r: &'static [PaneId])
        ensures
            r@ == tab_panes(tab),
    {
        reveal(tab_panes);
        match tab {
            ActiveTab::Workflow => &[PaneId::WorkflowMissionStrip, PaneId::WorkflowPrRail, PaneId::WorkflowPhaseRail, PaneId::WorkflowCanvas, PaneId::WorkflowMinimap, PaneId::WorkflowInspector, PaneId::ActivityLog(ActiveTab::Workflow)],
            ActiveTab::Mission => &[PaneId::MissionTopSignal, PaneId::MissionReadiness, PaneId::MissionMetrics, PaneId::MissionAttention, PaneId::MissionProofLanes, PaneId::MissionActions, PaneId::ActivityLog(ActiveTab::Mission)],
            ActiveTab::Release => &[PaneId::ReleaseSelector, PaneId::ReleasePipeline, PaneId::ReleaseInspector, PaneId::ReleaseRollback, PaneId::ActivityLog(ActiveTab::Release)],
            ActiveTab::Approvals => &[PaneId::ApprovalsQueue, PaneId::ApprovalsInspector, PaneId::ActivityLog(ActiveTab::Approvals)],
            ActiveTab::Jobs => &[PaneId::JobsRunnerFeed, PaneId::JobsProgress, PaneId::JobsMatrix, PaneId::JobsInspector, PaneId::ActivityLog(ActiveTab::Jobs)],
            ActiveTab::Agents => &[PaneId::AgentsSessions, PaneId::AgentsCockpit, PaneId::AgentsTimeline, PaneId::AgentsActions, PaneId::ActivityLog(ActiveTab::Agents)],
            ActiveTab::Tests => &[PaneId::TestsBottlenecks, PaneId::TestsHistory, PaneId::ActivityLog(ActiveTab::Tests)],
            ActiveTab::Pools => &[PaneId::PoolsList, PaneId::PoolsDetail, PaneId::ActivityLog(ActiveTab::Pools)],
            ActiveTab::Runners => &[PaneId::RunnersPools, PaneId::RunnersDetail, PaneId::ActivityLog(ActiveTab::Runners)],
            ActiveTab::Cache => &[PaneId::CacheDisk, PaneId::CacheStorage, PaneId::CacheGateway, PaneId::CacheSingleflight, PaneId::CacheTaint, PaneId::ActivityLog(ActiveTab::Cache)],
            ActiveTab::Evidence => &[PaneId::EvidenceList, PaneId::EvidenceDetail, PaneId::ActivityLog(ActiveTab::Evidence)],
            ActiveTab::Repos => &[PaneId::ReposLens, PaneId::ActivityLog(ActiveTab::Repos)],
            ActiveTab::Bugs => &[PaneId::BugsProjects, PaneId::BugsTable, PaneId::BugsInspector, PaneId::ActivityLog(ActiveTab::Bugs)],
            ActiveTab::Secrets => &[PaneId::SecretsList, PaneId::SecretsDetail, PaneId::ActivityLog(ActiveTab::Secrets)],
            ActiveTab::LLMs => &[PaneId::LLMsPolicyMatrix, PaneId::LLMsPolicySplit, PaneId::ActivityLog(ActiveTab::LLMs)],
            ActiveTab::Git => &[PaneId::GitLedger, PaneId::ActivityLog(ActiveTab::Git)],
            ActiveTab::Jankurai => &[PaneId::JankSummary, PaneId::JankStatus, PaneId::JankScoreChart, PaneId::JankBreakdown, PaneId::JankIssues, PaneId::JankEntryDetail],
        }
    }
}

/// Every tab has between one and eight panes, each pane of a tab belongs to
/// that tab, none of them is the global fleet bar, and no pane is listed twice.
pub proof fn lemma_tab_panes_wellformed(t: ActiveTab)
    ensures
        0 < tab_panes(t).len() <= 8,
        forall|i: int| 0 <= i < tab_panes(t).len() ==> pane_tab(#[trigger] tab_panes(t)[i]) == t,
        forall|i: int|
            0 <= i < tab_panes(t).len() ==> #[trigger] tab_panes(t)[i] != PaneId::FleetBar,
        forall|i: int, j: int|
            0 <= i < tab_panes(t).len() && 0 <= j < tab_panes(t).len() && i != j
                ==> #[trigger] tab_panes(t)[i] != #[trigger] tab_panes(t)[j],
{
    reveal(tab_panes);
}

/// The default pane of a tab belongs to that tab and is one of its panes.
pub proof fn lemma_default_pane_belongs_to_its_tab(t: ActiveTab)
    ensures
        pane_tab(default_pane(t)) == t,
        tab_panes(t).contains(default_pane(t)),
{
    reveal(tab_panes);
    let s = tab_panes(t);
    match t {
        ActiveTab::Workflow => assert(s[1] == default_pane(t)),
        ActiveTab::Bugs => assert(s[1] == default_pane(t)),
        ActiveTab::Jankurai => assert(s[4] == default_pane(t)),
        _ => assert(s[0] == default_pane(t)),
    }
}

/// Every pane other than the fleet bar (and the activity pane of the Jankurai
/// tab, which that tab does not lay out) is one of the panes of the tab it
/// belongs to.
pub proof fn lemma_pane_listed_in_its_tab(p: PaneId)
    requires
        p != PaneId::FleetBar,
        p != PaneId::ActivityLog(ActiveTab::Jankurai),
    ensures
        tab_panes(pane_tab(p)).contains(p),
{
    reveal(tab_panes);
    match p {
        PaneId::FleetBar => {},
        PaneId::ActivityLog(t) => {
            match t {
                ActiveTab::Workflow => assert(tab_panes(ActiveTab::Workflow)[6] == p),
                ActiveTab::Mission => assert(tab_panes(ActiveTab::Mission)[6] == p),
                ActiveTab::Release => assert(tab_panes(ActiveTab::Release)[4] == p),
                ActiveTab::Approvals => assert(tab_panes(ActiveTab::Approvals)[2] == p),
                ActiveTab::Jobs => assert(tab_panes(ActiveTab::Jobs)[4] == p),
                ActiveTab::Agents => assert(tab_panes(ActiveTab::Agents)[4] == p),
                ActiveTab::Tests => assert(tab_panes(ActiveTab::Tests)[2] == p),
                ActiveTab::Pools => assert(tab_panes(ActiveTab::Pools)[2] == p),
                ActiveTab::Runners => assert(tab_panes(ActiveTab::Runners)[2] == p),
                ActiveTab::Cache => assert(tab_panes(ActiveTab::Cache)[5] == p),
                ActiveTab::Evidence => assert(tab_panes(ActiveTab::Evidence)[2] == p),
                ActiveTab::Repos => assert(tab_panes(ActiveTab::Repos)[1] == p),
                ActiveTab::Bugs => assert(tab_panes(ActiveTab::Bugs)[3] == p),
                ActiveTab::Secrets => assert(tab_panes(ActiveTab::Secrets)[2] == p),
                ActiveTab::LLMs => assert(tab_panes(ActiveTab::LLMs)[2] == p),
                ActiveTab::Git => assert(tab_panes(ActiveTab::Git)[1] == p),
                ActiveTab::Jankurai => {},
            }
        },
        PaneId::WorkflowMissionStrip => assert(tab_panes(ActiveTab::Workflow)[0] == p),
        PaneId::WorkflowPrRail => assert(tab_panes(ActiveTab::Workflow)[1] == p),
        PaneId::WorkflowPhaseRail => assert(tab_panes(ActiveTab::Workflow)[2] == p),
        PaneId::WorkflowCanvas => assert(tab_panes(ActiveTab::Workflow)[3] == p),
        PaneId::WorkflowMinimap => assert(tab_panes(ActiveTab::Workflow)[4] == p),
        PaneId::WorkflowInspector => assert(tab_panes(ActiveTab::Workflow)[5] == p),
        PaneId::MissionTopSignal => assert(tab_panes(ActiveTab::Mission)[0] == p),
        PaneId::MissionReadiness => assert(tab_panes(ActiveTab::Mission)[1] == p),
        PaneId::MissionMetrics => assert(tab_panes(ActiveTab::Mission)[2] == p),
        PaneId::MissionAttention => assert(tab_panes(ActiveTab::Mission)[3] == p),
        PaneId::MissionProofLanes => assert(tab_panes(ActiveTab::Mission)[4] == p),
        PaneId::MissionActions => assert(tab_panes(ActiveTab::Mission)[5] == p),
        PaneId::ReleaseSelector => assert(tab_panes(ActiveTab::Release)[0] == p),
        PaneId::ReleasePipeline => assert(tab_panes(ActiveTab::Release)[1] == p),
        PaneId::ReleaseInspector => assert(tab_panes(ActiveTab::Release)[2] == p),
        PaneId::ReleaseRollback => assert(tab_panes(ActiveTab::Release)[3] == p),
        PaneId::ApprovalsQueue => assert(tab_panes(ActiveTab::Approvals)[0] == p),
        PaneId::ApprovalsInspector => assert(tab_panes(ActiveTab::Approvals)[1] == p),
        PaneId::JobsRunnerFeed => assert(tab_panes(ActiveTab::Jobs)[0] == p),
        PaneId::JobsProgress => assert(tab_panes(ActiveTab::Jobs)[1] == p),
        PaneId::JobsMatrix => assert(tab_panes(ActiveTab::Jobs)[2] == p),
        PaneId::JobsInspector => assert(tab_panes(ActiveTab::Jobs)[3] == p),
        PaneId::AgentsSessions => assert(tab_panes(ActiveTab::Agents)[0] == p),
        PaneId::AgentsCockpit => assert(tab_panes(ActiveTab::Agents)[1] == p),
        PaneId::AgentsTimeline => assert(tab_panes(ActiveTab::Agents)[2] == p),
        PaneId::AgentsActions => assert(tab_panes(ActiveTab::Agents)[3] == p),
        PaneId::TestsBottlenecks => assert(tab_panes(ActiveTab::Tests)[0] == p),
        PaneId::TestsHistory => assert(tab_panes(ActiveTab::Tests)[1] == p),
        PaneId::PoolsList => assert(tab_panes(ActiveTab::Pools)[0] == p),
        PaneId::PoolsDetail => assert(tab_panes(ActiveTab::Pools)[1] == p),
        PaneId::RunnersPools => assert(tab_panes(ActiveTab::Runners)[0] == p),
        PaneId::RunnersDetail => assert(tab_panes(ActiveTab::Runners)[1] == p),
        PaneId::CacheDisk => assert(tab_panes(ActiveTab::Cache)[0] == p),
        PaneId::CacheStorage => assert(tab_panes(ActiveTab::Cache)[1] == p),
        PaneId::CacheGateway => assert(tab_panes(ActiveTab::Cache)[2] == p),
        PaneId::CacheSingleflight => assert(tab_panes(ActiveTab::Cache)[3] == p),
        PaneId::CacheTaint => assert(tab_panes(ActiveTab::Cache)[4] == p),
        PaneId::EvidenceList => assert(tab_panes(ActiveTab::Evidence)[0] == p),
        PaneId::EvidenceDetail => assert(tab_panes(ActiveTab::Evidence)[1] == p),
        PaneId::ReposLens => assert(tab_panes(ActiveTab::Repos)[0] == p),
        PaneId::BugsProjects => assert(tab_panes(ActiveTab::Bugs)[0] == p),
        PaneId::BugsTable => assert(tab_panes(ActiveTab::Bugs)[1] == p),
        PaneId::BugsInspector => assert(tab_panes(ActiveTab::Bugs)[2] == p),
        PaneId::SecretsList => assert(tab_panes(ActiveTab::Secrets)[0] == p),
        PaneId::SecretsDetail => assert(tab_panes(ActiveTab::Secrets)[1] == p),
        PaneId::LLMsPolicyMatrix => assert(tab_panes(ActiveTab::LLMs)[0] == p),
        PaneId::LLMsPolicySplit => assert(tab_panes(ActiveTab::LLMs)[1] == p),
        PaneId::GitLedger => assert(tab_panes(ActiveTab::Git)[0] == p),
        PaneId::JankSummary => assert(tab_panes(ActiveTab::Jankurai)[0] == p),
        PaneId::JankStatus => assert(tab_panes(ActiveTab::Jankurai)[1] == p),
        PaneId::JankScoreChart => assert(tab_panes(ActiveTab::Jankurai)[2] == p),
        PaneId::JankBreakdown => assert(tab_panes(ActiveTab::Jankurai)[3] == p),
        PaneId::JankIssues => assert(tab_panes(ActiveTab::Jankurai)[4] == p),
        PaneId::JankEntryDetail => assert(tab_panes(ActiveTab::Jankurai)[5] == p),
    }
}

/// Every pane has a non-empty label.
pub proof fn lemma_pane_labels_non_empty(p: PaneId)
    ensures
        pane_label(p).len() > 0,
{
    reveal_strlit(")");
    reveal_strlit("Actions");
    reveal_strlit("Activity / Logs (");
    reveal_strlit("Approvals");
    reveal_strlit("Attention");
    reveal_strlit("Bottlenecks");
    reveal_strlit("Bugs");
    reveal_strlit("Canvas");
    reveal_strlit("Caps / Findings");
    reveal_strlit("Cockpit");
    reveal_strlit("Detail");
    reveal_strlit("Disk");
    reveal_strlit("Entry Detail");
    reveal_strlit("Evidence");
    reveal_strlit("Fleet");
    reveal_strlit("Gateway");
    reveal_strlit("History");
    reveal_strlit("Inspector");
    reveal_strlit("Jankurai Status");
    reveal_strlit("Jankurai Summary");
    reveal_strlit("Job Matrix");
    reveal_strlit("Last Scan Dimensions");
    reveal_strlit("Ledger");
    reveal_strlit("Map");
    reveal_strlit("Metrics");
    reveal_strlit("Mission Strip");
    reveal_strlit("PRs");
    reveal_strlit("Phase");
    reveal_strlit("Policy Matrix");
    reveal_strlit("Policy Split");
    reveal_strlit("Pool Detail");
    reveal_strlit("Pools");
    reveal_strlit("Pools/Health");
    reveal_strlit("Progress");
    reveal_strlit("Projects");
    reveal_strlit("Proof Lanes");
    reveal_strlit("Readiness");
    reveal_strlit("Release");
    reveal_strlit("Repos");
    reveal_strlit("Rollback");
    reveal_strlit("Runner Feed");
    reveal_strlit("Score History");
    reveal_strlit("Secrets");
    reveal_strlit("Sessions");
    reveal_strlit("Singleflight");
    reveal_strlit("Storage");
    reveal_strlit("Subpane Selector");
    reveal_strlit("Taint");
    reveal_strlit("Timeline");
    reveal_strlit("Top Signal");
}

} // verus!
