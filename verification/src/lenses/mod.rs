//! Flight Deck lenses.
//!
//! Each lens renders an owned `*LensInput` projection and never performs I/O.
//! All eighteen lenses are routed and implemented; [`LensId::for_tab`] resolves
//! the lens that owns each tab.


pub mod agents;
pub mod approvals;
pub mod autonomy;
pub mod bugs;
pub mod evidence;
pub mod git;
pub mod health;
pub mod jankurai;
pub mod llms;
pub mod queue;
pub mod runners;
pub mod secrets;
pub mod source_doctor;
pub mod vti;
pub mod workflow;

use vstd::prelude::*;

use crate::app::ActiveTab;

verus! {

/// The Flight Deck lenses.
#[derive(Debug, Clone, Copy, PartialEq, Eq, Hash, Structural)]
pub enum LensId {
    Mission,
    Queue,
    Repos,
    Workflow,
    Evidence,
    SourceDoctor,
    Runners,
    Agents,
    Bugs,
    Cache,
    Vti,
    Release,
    Autonomy,
    Llms,
    Approvals,
    Git,
    Jankurai,
    Secrets,
}

/// Route slug of each lens.
pub open spec fn lens_route(l: LensId) -> Seq<char> {
    match l {
        LensId::Mission => "mission"@,
        LensId::Queue => "queue"@,
        LensId::Repos => "repos"@,
        LensId::Workflow => "workflow"@,
        LensId::Evidence => "evidence"@,
        LensId::SourceDoctor => "source-doctor"@,
        LensId::Runners => "runners"@,
        LensId::Agents => "agents"@,
        LensId::Bugs => "bugs"@,
        LensId::Cache => "cache"@,
        LensId::Vti => "vti"@,
        LensId::Release => "release"@,
        LensId::Autonomy => "autonomy"@,
        LensId::Llms => "llms"@,
        LensId::Approvals => "approvals"@,
        LensId::Git => "git"@,
        LensId::Jankurai => "jankurai"@,
        LensId::Secrets => "secrets"@,
    }
}

/// Display label of each lens.
pub open spec fn lens_label(l: LensId) -> Seq<char> {
    match l {
        LensId::Mission => "Mission"@,
        LensId::Queue => "Queue"@,
        LensId::Repos => "Repos"@,
        LensId::Workflow => "Workflow"@,
        LensId::Evidence => "Evidence"@,
        LensId::SourceDoctor => "Source Doctor"@,
        LensId::Runners => "Runners"@,
        LensId::Agents => "Agents"@,
        LensId::Bugs => "Bugs"@,
        LensId::Cache => "Cache"@,
        LensId::Vti => "VTI"@,
        LensId::Release => "Release"@,
        LensId::Autonomy => "Autonomy"@,
        LensId::Llms => "LLMs"@,
        LensId::Approvals => "Approvals"@,
        LensId::Git => "Git"@,
        LensId::Jankurai => "Jankurai"@,
        LensId::Secrets => "Secrets"@,
    }
}

/// The lens that owns each tab.
pub open spec fn lens_for_tab(t: ActiveTab) -> LensId {
    match t {
        ActiveTab::Mission => LensId::Mission,
        ActiveTab::Pools => LensId::Queue,
        ActiveTab::Jobs => LensId::Queue,
        ActiveTab::Runners => LensId::Runners,
        ActiveTab::Repos => LensId::Repos,
        ActiveTab::Workflow => LensId::Workflow,
        ActiveTab::Release => LensId::Release,
        ActiveTab::Approvals => LensId::Approvals,
        ActiveTab::Agents => LensId::Agents,
        ActiveTab::Tests => LensId::Vti,
        ActiveTab::Cache => LensId::Cache,
        ActiveTab::Evidence => LensId::Evidence,
        ActiveTab::Bugs => LensId::Bugs,
        ActiveTab::LLMs => LensId::Llms,
        ActiveTab::Git => LensId::Git,
        ActiveTab::Secrets => LensId::Secrets,
        ActiveTab::Jankurai => LensId::Jankurai,
    }
}

/// The lenses in catalogue order.
pub open spec fn core_lenses() -> Seq<LensId> {
    seq![LensId::Mission, LensId::Queue, LensId::Repos, LensId::Workflow, LensId::Evidence, LensId::SourceDoctor, LensId::Runners, LensId::Agents, LensId::Bugs, LensId::Cache, LensId::Vti, LensId::Release, LensId::Autonomy, LensId::Llms, LensId::Approvals, LensId::Git, LensId::Jankurai, LensId::Secrets
    ]
}

impl LensId {
    /// Every lens, in catalogue order.
    pub const CORE: [LensId; 18] = [
        LensId::Mission,
        LensId::Queue,
        LensId::Repos,
        LensId::Workflow,
        LensId::Evidence,
        LensId::SourceDoctor,
        LensId::Runners,
        LensId::Agents,
        LensId::Bugs,
        LensId::Cache,
        LensId::Vti,
        LensId::Release,
        LensId::Autonomy,
        LensId::Llms,
        LensId::Approvals,
        LensId::Git,
        LensId::Jankurai,
        LensId::Secrets,
    ];

    /// The lenses wired end to end (data projection plus view).
    pub const IMPLEMENTED: [LensId; 18] = LensId::CORE;

    /// Route slug of the lens.
    pub fn route(self) -> (r: &'static str)
        ensures
            r@ == lens_route(self),
    {
        match self {
            LensId::Mission => "mission",
            LensId::Queue => "queue",
            LensId::Repos => "repos",
            LensId::Workflow => "workflow",
            LensId::Evidence => "evidence",
            LensId::SourceDoctor => "source-doctor",
            LensId::Runners => "runners",
            LensId::Agents => "agents",
            LensId::Bugs => "bugs",
            LensId::Cache => "cache",
            LensId::Vti => "vti",
            LensId::Release => "release",
            LensId::Autonomy => "autonomy",
            LensId::Llms => "llms",
            LensId::Approvals => "approvals",
            LensId::Git => "git",
            LensId::Jankurai => "jankurai",
            LensId::Secrets => "secrets",
        }
    }

    /// Display label of the lens.
    pub fn label(self) -> (r: &'static str)
        ensures
            r@ == lens_label(self),
    {
        match self {
            LensId::Mission => "Mission",
            LensId::Queue => "Queue",
            LensId::Repos => "Repos",
            LensId::Workflow => "Workflow",
            LensId::Evidence => "Evidence",
            LensId::SourceDoctor => "Source Doctor",
            LensId::Runners => "Runners",
            LensId::Agents => "Agents",
            LensId::Bugs => "Bugs",
            LensId::Cache => "Cache",
            LensId::Vti => "VTI",
            LensId::Release => "Release",
            LensId::Autonomy => "Autonomy",
            LensId::Llms => "LLMs",
            LensId::Approvals => "Approvals",
            LensId::Git => "Git",
            LensId::Jankurai => "Jankurai",
            LensId::Secrets => "Secrets",
        }
    }

    /// Is this lens implemented end to end (data + view)?
    pub fn is_implemented(self) -> (r: bool)
        ensures
            r == core_lenses().contains(self),
    {
        let all = LensId::IMPLEMENTED;
        assert(all@ =~= core_lenses());
        let mut i: usize = 0;
        while i < all.len()
            invariant
                all@ == core_lenses(),
                i <= all@.len(),
                forall|j: int| 0 <= j < i ==> all@[j] != self,
            decreases all@.len() - i,
        {
            if all[i] == self {
                return true;
            }
            i = i + 1;
        }
        false
    }

    /// The lens that owns `tab`.
    pub fn for_tab(tab: ActiveTab) -> (r: LensId)
        ensures
            r == lens_for_tab(tab),
    {
        match tab {
            ActiveTab::Mission => LensId::Mission,
            ActiveTab::Pools => LensId::Queue,
            ActiveTab::Jobs => LensId::Queue,
            ActiveTab::Runners => LensId::Runners,
            ActiveTab::Repos => LensId::Repos,
            ActiveTab::Workflow => LensId::Workflow,
            ActiveTab::Release => LensId::Release,
            ActiveTab::Approvals => LensId::Approvals,
            ActiveTab::Agents => LensId::Agents,
            ActiveTab::Tests => LensId::Vti,
            ActiveTab::Cache => LensId::Cache,
            ActiveTab::Evidence => LensId::Evidence,
            ActiveTab::Bugs => LensId::Bugs,
            ActiveTab::LLMs => LensId::Llms,
            ActiveTab::Git => LensId::Git,
            ActiveTab::Secrets => LensId::Secrets,
            ActiveTab::Jankurai => LensId::Jankurai,
        }
    }
}

/// Every lens has a non-empty route and a non-empty label.
pub proof fn lemma_every_lens_has_route_and_label(l: LensId)
    ensures
        lens_route(l).len() > 0,
        lens_label(l).len() > 0,
{
    reveal_strlit("mission");
    reveal_strlit("queue");
    reveal_strlit("repos");
    reveal_strlit("workflow");
    reveal_strlit("evidence");
    reveal_strlit("source-doctor");
    reveal_strlit("runners");
    reveal_strlit("agents");
    reveal_strlit("bugs");
    reveal_strlit("cache");
    reveal_strlit("vti");
    reveal_strlit("release");
    reveal_strlit("autonomy");
    reveal_strlit("llms");
    reveal_strlit("approvals");
    reveal_strlit("git");
    reveal_strlit("jankurai");
    reveal_strlit("secrets");
    reveal_strlit("Mission");
    reveal_strlit("Queue");
    reveal_strlit("Repos");
    reveal_strlit("Workflow");
    reveal_strlit("Evidence");
    reveal_strlit("Source Doctor");
    reveal_strlit("Runners");
    reveal_strlit("Agents");
    reveal_strlit("Bugs");
    reveal_strlit("Cache");
    reveal_strlit("VTI");
    reveal_strlit("Release");
    reveal_strlit("Autonomy");
    reveal_strlit("LLMs");
    reveal_strlit("Approvals");
    reveal_strlit("Git");
    reveal_strlit("Jankurai");
    reveal_strlit("Secrets");
}

/// Distinct lenses have distinct routes.
pub proof fn lemma_routes_are_unique(a: LensId, b: LensId)
    requires
        a != b,
    ensures
        lens_route(a) != lens_route(b),
{
    reveal_strlit("mission");
    reveal_strlit("queue");
    reveal_strlit("repos");
    reveal_strlit("workflow");
    reveal_strlit("evidence");
    reveal_strlit("source-doctor");
    reveal_strlit("runners");
    reveal_strlit("agents");
    reveal_strlit("bugs");
    reveal_strlit("cache");
    reveal_strlit("vti");
    reveal_strlit("release");
    reveal_strlit("autonomy");
    reveal_strlit("llms");
    reveal_strlit("approvals");
    reveal_strlit("git");
    reveal_strlit("jankurai");
    reveal_strlit("secrets");
    if lens_route(a) == lens_route(b) {
        assert(lens_route(a).len() == lens_route(b).len());
        assert(lens_route(a)[0] == lens_route(b)[0]);
        assert(lens_route(a)[1] == lens_route(b)[1]);
        assert(lens_route(a)[2] == lens_route(b)[2]);
    }
}

/// The catalogue lists all eighteen lenses, so every lens is implemented.
pub proof fn lemma_every_lens_is_implemented(l: LensId)
    ensures
        core_lenses().len() == 18,
        core_lenses().contains(l),
{
    match l {
        LensId::Mission => assert(core_lenses()[0] == l),
        LensId::Queue => assert(core_lenses()[1] == l),
        LensId::Repos => assert(core_lenses()[2] == l),
        LensId::Workflow => assert(core_lenses()[3] == l),
        LensId::Evidence => assert(core_lenses()[4] == l),
        LensId::SourceDoctor => assert(core_lenses()[5] == l),
        LensId::Runners => assert(core_lenses()[6] == l),
        LensId::Agents => assert(core_lenses()[7] == l),
        LensId::Bugs => assert(core_lenses()[8] == l),
        LensId::Cache => assert(core_lenses()[9] == l),
        LensId::Vti => assert(core_lenses()[10] == l),
        LensId::Release => assert(core_lenses()[11] == l),
        LensId::Autonomy => assert(core_lenses()[12] == l),
        LensId::Llms => assert(core_lenses()[13] == l),
        LensId::Approvals => assert(core_lenses()[14] == l),
        LensId::Git => assert(core_lenses()[15] == l),
        LensId::Jankurai => assert(core_lenses()[16] == l),
        LensId::Secrets => assert(core_lenses()[17] == l),
    }
}

/// Every tab routes to an implemented lens.
pub proof fn lemma_tabs_route_to_implemented_lenses(t: ActiveTab)
    ensures
        core_lenses().contains(lens_for_tab(t)),
{
    lemma_every_lens_is_implemented(lens_for_tab(t));
}

} // verus!
