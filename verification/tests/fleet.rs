use jeryu_tui::lenses::agents::fleet::{agents_header, controls_label, fleet_status, output_budget};
use jeryu_tui::lenses::approvals::{ApprovalRow, ApprovalsLensInput, CheckStatus, RiskTier};
use jeryu_tui::lenses::autonomy::AutonomyLensInput;
use jeryu_tui::lenses::bugs::{BugRow, BugsLensInput, Severity, TopBlocker};
use jeryu_tui::lenses::evidence::CodegraphEvidenceRow;
use jeryu_tui::lenses::health::{HealthLevel, RunnerHealth};
use jeryu_tui::lenses::llms::LlmsLensInput;
use jeryu_tui::lenses::queue::QueueLensInput;
use jeryu_tui::lenses::runners::{PoolHealthRow, RunnerNodeRow, RunnersLensInput, RunnersSummary};
use jeryu_tui::lenses::source_doctor::{
    component_row, ComponentHealth, SourceDoctorLensInput,
};
use jeryu_tui::lenses::vti::VtiLensInput;
use jeryu_tui::lenses::workflow::{
    DeliveryPosture, WorkflowLensInput, WorkflowRow, WorkflowSummary,
};
use jeryu_tui::text::join_strings;

fn queue(depth: u32, active: u32, total: u32) -> QueueLensInput {
    QueueLensInput {
        queue_depth: depth,
        running_jobs: 0,
        failed_jobs: 0,
        active_runners: active,
        total_runners: total,
        runner_health: RunnerHealth::default(),
        event_cursor: 0,
    }
}

#[test]
fn capacity_math_derives_headroom_and_utilization() {
    let input = queue(2, 3, 8);
    assert_eq!(input.headroom(), 5);
    assert!(!input.queue_exceeds_headroom());
}

#[test]
fn headroom_saturates_and_flags_overflow() {
    let input = queue(5, 10, 8);
    assert_eq!(input.headroom(), 0);
    assert!(input.queue_exceeds_headroom());
}

#[test]
fn queue_header_and_headroom_note() {
    let mut input = queue(12, 4, 8);
    input.running_jobs = 3;
    input.failed_jobs = 1;
    assert_eq!(input.header_text(), "Queue — 12 queued · 3 running · 1 failed · capacity 4/8");
    assert_eq!(input.headroom_note(), "4 free — queue exceeds free capacity");
    assert_eq!(queue(1, 4, 8).headroom_note(), "4 free");
    let empty = queue(0, 0, 0);
    assert_eq!(empty.headroom(), 0);
    assert!(!empty.queue_exceeds_headroom());
}

fn node(label: &str, status: HealthLevel) -> RunnerNodeRow {
    RunnerNodeRow {
        label: label.into(),
        runner_id: "r".into(),
        pool: "trusted".into(),
        status,
        tags: vec![],
        last_contact: "seen".into(),
    }
}

#[test]
fn status_word_classifies_health_levels() {
    let mut row = node("n", HealthLevel::Healthy);
    assert_eq!(row.status_word(), "online");
    row.status = HealthLevel::Degraded;
    assert_eq!(row.status_word(), "busy");
    row.status = HealthLevel::Warning;
    assert_eq!(row.status_word(), "idle");
    row.status = HealthLevel::Critical;
    assert_eq!(row.status_word(), "STUCK");
    assert!(row.is_alerting());
}

#[test]
fn probing_and_stuck_nodes_need_attention() {
    let mut row = node("n", HealthLevel::Unknown);
    assert_eq!(row.status_word(), "probing");
    assert!(row.is_alerting());
    for healthy in [HealthLevel::Healthy, HealthLevel::Warning, HealthLevel::Degraded] {
        row.status = healthy;
        assert!(!row.is_alerting());
    }
    let nodes = vec![
        node("n1", HealthLevel::Critical),
        node("n2", HealthLevel::Unknown),
        node("n3", HealthLevel::Healthy),
    ];
    assert_eq!(RunnersLensInput::from_dashboard(None, 0, 0, nodes, 0).stuck_nodes(), 2);
}

#[test]
fn from_default_read_model_has_no_nodes() {
    let input = RunnersLensInput::default();
    assert_eq!(input.active_runners, 0);
    assert_eq!(input.total_runners, 0);
    assert!(input.nodes.is_empty());
    assert_eq!(input.stuck_nodes(), 0);
    assert_eq!(input.event_cursor, 0);
}

#[test]
fn data_falls_back_to_mission_counts_without_summary() {
    let input = RunnersLensInput::from_dashboard(None, 5, 2, vec![], 0);
    assert_eq!(input.active_runners, 2);
    assert_eq!(input.total_runners, 5);
    assert_eq!(input.paused_runners, 0);
    assert_eq!(input.draining_runners, 0);
}

#[test]
fn runners_summary_wins_over_mission_counts() {
    let summary = RunnersSummary {
        total_runners: 8,
        active_runners: 6,
        paused_runners: 1,
        draining_runners: 1,
    };
    let input = RunnersLensInput::from_dashboard(Some(summary), 5, 2, vec![node("oci-runner-1", HealthLevel::Healthy)], 42);
    assert_eq!(input.total_runners, 8);
    assert_eq!(input.active_runners, 6);
    assert_eq!(input.paused_runners, 1);
    assert_eq!(input.draining_runners, 1);
    assert_eq!(input.nodes.len(), 1);
    assert_eq!(input.nodes[0].label, "oci-runner-1");
    assert_eq!(input.event_cursor, 42);
}

#[test]
fn stuck_nodes_counts_critical() {
    let nodes = vec![node("n1", HealthLevel::Critical), node("n2", HealthLevel::Healthy)];
    let input = RunnersLensInput::from_dashboard(None, 0, 0, nodes, 0);
    assert_eq!(input.stuck_nodes(), 1);
}

fn pool(paused: bool, saturated: bool, online: u32, stuck: u32) -> PoolHealthRow {
    PoolHealthRow {
        pool: "trusted".into(),
        tags: vec!["oci".into()],
        trust_tier: "trusted".into(),
        paused,
        queued_jobs: 5,
        running_jobs: 2,
        failed_jobs: 1,
        active_slots: 2,
        idle_slots: 0,
        configured_max_slots: 2,
        online_runners: online,
        stuck_runners: stuck,
        utilization_pct: 100,
        saturated,
    }
}

#[test]
fn pool_rows_name_state_and_runners() {
    assert_eq!(pool(true, true, 2, 1).state_word(), "PAUSED");
    assert_eq!(pool(false, true, 2, 1).state_word(), "SATURATED");
    assert_eq!(pool(false, false, 2, 0).state_word(), "active");
    assert_eq!(pool(false, true, 2, 1).runners_text(), "2 (1stuck)");
    assert_eq!(pool(false, false, 4, 0).runners_text(), "4 online");
}

fn pipeline(id: &str, repo: &str, posture: DeliveryPosture, pr: Option<u64>) -> WorkflowRow {
    WorkflowRow {
        pipeline_id: id.into(),
        label: id.into(),
        repo_slug: repo.into(),
        pr_number: pr,
        posture,
        critical_path_node: None,
    }
}

#[test]
fn derives_counts_without_summary() {
    let rows = vec![
        pipeline("pipe-1", "core/web", DeliveryPosture::Blocked, None),
        pipeline("pipe-2", "core/api", DeliveryPosture::Running, None),
    ];
    let input = WorkflowLensInput::from_dashboard(None, rows, 0);
    assert_eq!(input.blocked_count, 1);
    assert_eq!(input.running_count, 1);
}

#[test]
fn data_empty_from_default_read_model() {
    let input = WorkflowLensInput::default();
    assert_eq!(input.pipeline_count(), 0);
    assert_eq!(input.running_count, 0);
    assert_eq!(input.blocked_count, 0);
    assert!(input.rows.is_empty());
    assert_eq!(input.event_cursor, 0);
}

#[test]
fn workflow_summary_header_and_pr_cells() {
    let rows = vec![
        pipeline("pipe-1", "core/web", DeliveryPosture::Running, Some(101)),
        pipeline("pipe-2", "core/api", DeliveryPosture::Blocked, None),
    ];
    let summary = WorkflowSummary { running_count: 1, blocked_count: 1, longest_running_seconds: 2_840 };
    let input = WorkflowLensInput::from_dashboard(Some(summary), rows, 42);
    assert_eq!(input.pipeline_count(), 2);
    assert_eq!(input.longest_running_seconds, 2_840);
    assert_eq!(
        input.header_text(),
        "Workflow Atlas — 2 workflows · 1 running · 1 blocked · longest 2840s"
    );
    assert_eq!(input.rows[0].pr_cell(), "#101");
    assert_eq!(input.rows[1].pr_cell(), "—");
}

fn component(name: &str, status: HealthLevel, detail: Option<&str>, latency: Option<u64>) -> ComponentHealth {
    ComponentHealth {
        name: name.into(),
        status,
        detail: detail.map(|d| d.to_string()),
        latency_ms: latency,
    }
}

#[test]
fn runner_row_reflects_fleet_counts() {
    let fleet = RunnerHealth { online: 4, busy: 2, idle: 2, degraded: 0 };
    let input = SourceDoctorLensInput::from_components(&[], fleet, 0);
    let runners = input
        .components
        .iter()
        .find(|c| c.name == "runners")
        .expect("runners row present");
    assert_eq!(runners.health, HealthLevel::Healthy);
    assert!(runners.detail.contains("4 online"));
    assert_eq!(runners.detail, "4 online · 2 busy · 2 idle · 0 degraded");
}

#[test]
fn degraded_runner_fleet_is_degraded() {
    let fleet = RunnerHealth { online: 3, busy: 0, idle: 0, degraded: 1 };
    let input = SourceDoctorLensInput::from_components(&[], fleet, 0);
    assert_eq!(input.components.last().unwrap().health, HealthLevel::Degraded);
    let empty = SourceDoctorLensInput::from_components(&[], RunnerHealth::default(), 0);
    assert_eq!(empty.components.last().unwrap().health, HealthLevel::Unknown);
}

#[test]
fn component_details_carry_latency_or_ok() {
    assert_eq!(component_row(&component("scm", HealthLevel::Healthy, Some("reachable"), Some(12))).detail, "reachable (12ms)");
    assert_eq!(component_row(&component("db", HealthLevel::Healthy, None, Some(7))).detail, "7ms");
    assert_eq!(component_row(&component("db", HealthLevel::Healthy, Some(""), Some(7))).detail, "7ms");
    assert_eq!(component_row(&component("vault", HealthLevel::Degraded, Some("sealed"), None)).detail, "sealed");
    assert_eq!(component_row(&component("cache", HealthLevel::Unknown, None, None)).detail, "ok");
}

#[test]
fn doctor_counts_healthy_components() {
    let comps = vec![
        component("scm", HealthLevel::Healthy, None, Some(3)),
        component("database", HealthLevel::Degraded, Some("not yet checked"), None),
    ];
    let fleet = RunnerHealth { online: 2, busy: 1, idle: 1, degraded: 0 };
    let input = SourceDoctorLensInput::from_components(&comps, fleet, 42);
    assert_eq!(input.total_count(), 3);
    assert_eq!(input.healthy_count(), 2);
    assert_eq!(input.components[0].name, "scm");
    assert_eq!(input.components[2].name, "runners");
    assert_eq!(input.event_cursor, 42);
    assert_eq!(input.header_text(), "Source Doctor — 2/3 components healthy");
}

#[test]
fn select_projects_blocker_and_attention_rows() {
    let rows = vec![
        BugRow {
            severity: Severity::Error,
            title: "flaky test".into(),
            why_it_matters: "blocks merge of MR 42".into(),
        },
        BugRow {
            severity: Severity::Warning,
            title: "stale capsule".into(),
            why_it_matters: "evidence may be outdated".into(),
        },
    ];
    let blocker = TopBlocker {
        summary: "release gate failing on jeryu".into(),
        severity: Severity::Critical,
    };
    let input = BugsLensInput::from_mission(0, 3, Some(blocker), rows, 0);
    assert_eq!(input.failed_jobs, 3);
    assert_eq!(input.top_blocker.as_deref(), Some("release gate failing on jeryu"));
    assert_eq!(input.top_blocker_severity, Some(Severity::Critical));
    assert_eq!(input.rows.len(), 2);
    assert_eq!(input.rows[0].title, "flaky test");
    assert_eq!(input.rows[0].severity, Severity::Error);
    assert_eq!(input.rows[1].why_it_matters, "evidence may be outdated");
    assert_eq!(input.header_text(), "Bugs — top blocker: release gate failing on jeryu · 3 failing jobs");
    let calm = BugsLensInput::from_mission(0, 0, None, vec![], 7);
    assert!(calm.top_blocker.is_none());
    assert!(calm.top_blocker_severity.is_none());
    assert_eq!(calm.header_text(), "Bugs — top blocker: none · 0 failing jobs");
}

fn approval(pr: u64, risk: RiskTier, checks: CheckStatus) -> ApprovalRow {
    ApprovalRow {
        pr_number: pr,
        title: "feat".into(),
        author: "agent-storm-04".into(),
        risk,
        checks,
        age: "5m".into(),
        head_sha: "abc123".into(),
    }
}

fn sample_approvals() -> Vec<ApprovalRow> {
    vec![
        approval(101, RiskTier::R2, CheckStatus::Success),
        approval(102, RiskTier::R4, CheckStatus::Failure),
    ]
}

#[test]
fn selected_index_is_clamped_to_last_row() {
    let input = ApprovalsLensInput::from_rows_selecting(sample_approvals(), 99, 42);
    assert_eq!(input.selected, 1);
    assert_eq!(input.selected_row().unwrap().pr_number, 102);
}

#[test]
fn selected_index_preserved_in_range() {
    let input = ApprovalsLensInput::from_rows_selecting(sample_approvals(), 1, 42);
    assert_eq!(input.selected, 1);
    assert_eq!(input.selected_row().unwrap().pr_number, 102);
}

#[test]
fn empty_approval_queue_selects_nothing() {
    let input = ApprovalsLensInput::from_rows_selecting(vec![], 5, 0);
    assert!(input.is_empty());
    assert_eq!(input.selected, 0);
    assert!(input.selected_row().is_none());
}

#[test]
fn approval_cells_name_risk_and_pr() {
    let rows = sample_approvals();
    assert_eq!(rows[0].risk.tag(), "R2");
    assert_eq!(rows[1].risk.tag(), "R4");
    assert_eq!(RiskTier::R0.tag(), "R0");
    assert_eq!(RiskTier::R5.tag(), "R5");
    assert_eq!(rows[0].pr_cell(), "#101");
    assert_eq!(rows[0].author_cell(), "agent-storm-04");
    assert_eq!(rows[0].title_cell(), "feat");
    assert_eq!(rows[0].sha_cell(), "abc123");
    let mut long = approval(7, RiskTier::R1, CheckStatus::Pending);
    long.author = "a-very-long-author-name".into();
    long.head_sha = "0123456789abcdef".into();
    assert_eq!(long.author_cell(), "a-very-long-a…");
    assert_eq!(long.sha_cell(), "0123456789a…");
    let input = ApprovalsLensInput::from_rows_selecting(sample_approvals(), 0, 0);
    assert_eq!(input.queue_title(), " Awaiting approval (2) ");
}

#[test]
fn codegraph_cells_join_lists_and_flag_misses() {
    let mut row = CodegraphEvidenceRow {
        query_id: "q1".into(),
        tool: "codegraph.query".into(),
        symbol: "AgentRunStore".into(),
        schema_version: 2,
        references: 3,
        required_reads: vec!["a.rs".into(), "b.rs".into()],
        proof_lanes: vec![],
        miss: None,
    };
    assert_eq!(row.reads_cell(), "a.rs,b.rs");
    assert_eq!(row.lanes_cell(), "—");
    assert_eq!(row.symbol_cell(), "AgentRunStore");
    row.miss = Some("not indexed".into());
    assert_eq!(row.symbol_cell(), "AgentRunStore (not indexed)");
}

#[test]
fn join_strings_matches_slice_join() {
    let parts: Vec<String> = vec!["x".into(), "yy".into(), "".into(), "z".into()];
    assert_eq!(join_strings(&parts, ","), parts.join(","));
    assert_eq!(join_strings(&parts, " · "), parts.join(" · "));
    assert_eq!(join_strings(&[], ","), "");
    assert_eq!(join_strings(&["solo".to_string()], ","), "solo");
}

#[test]
fn small_lens_headers() {
    let llms = LlmsLensInput { active_agents: 3, active_grants: 2, agents_can_code: false, event_cursor: 42 };
    assert_eq!(llms.header_text(), "LLMs — 3 agent sessions · 2 grants");
    assert!(!llms.is_idle());
    assert!(LlmsLensInput::default().is_idle());
    let vti = VtiLensInput {
        selector_misses_24h: 12,
        running_jobs: 1,
        failed_jobs: 3,
        queued_jobs: 2,
        overall: HealthLevel::Critical,
        event_cursor: 0,
    };
    assert_eq!(vti.header_text(), "VTI Tests — 12 selector misses (24h) · 3 failing");
    let autonomy = AutonomyLensInput {
        active_grants: 4,
        agents_can_code: false,
        safe_to_code: false,
        blocked_agents: 2,
        overall: HealthLevel::Critical,
        event_cursor: 42,
    };
    assert_eq!(autonomy.header_text(), "Autonomy — grants=4 · code=NO");
}

#[test]
fn agents_fleet_status_and_run_cells() {
    assert_eq!(fleet_status(false, 3, 5), "FROZEN");
    assert_eq!(fleet_status(true, 1, 5), "blocked");
    assert_eq!(fleet_status(true, 0, 0), "idle");
    assert_eq!(fleet_status(true, 0, 2), "active");
    assert_eq!(output_budget(512, 0), "512");
    assert_eq!(output_budget(512, 4096), "512/4096");
    assert_eq!(controls_label(&[]), "closed");
    assert_eq!(
        controls_label(&["send_input".to_string(), "resize".to_string()]),
        "send_input,resize"
    );
    assert_eq!(
        agents_header(2, 1, 3, 4, 1),
        "Agents — 2 active · 1 blocked · 3 grants · 4 running runs · 1 live tty"
    );
}
