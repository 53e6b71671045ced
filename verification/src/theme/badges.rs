//! Semantic badges: freshness, proof confidence and risk tiers.
//!
//! Labels are pinned verbatim, and the named risk aliases and the numbered
//! risk tiers of pull requests convert into the canonical R0-R5 badges.

use vstd::prelude::*;

use crate::lenses::approvals::RiskTier;

verus! {

/// Freshness badge variants.
#[derive(Debug, Clone, Copy, PartialEq, Eq, Structural)]
pub enum FreshnessBadge {
    Live,
    Fresh,
    Expired,
    LastKnown,
    Inferred,
    Partial,
    SourceDown,
    Unknown,
    NoProof,
    Unverified,
    Poll,
    Fixture,
}

/// Pinned display label of a freshness badge.
pub open spec fn freshness_label(b: FreshnessBadge) -> Seq<char> {
    match b {
        FreshnessBadge::Live => "LIVE"@,
        FreshnessBadge::Fresh => "FRESH"@,
        FreshnessBadge::Expired => "EXPIRED"@,
        FreshnessBadge::LastKnown => "LAST KNOWN"@,
        FreshnessBadge::Inferred => "INFERRED"@,
        FreshnessBadge::Partial => "PARTIAL"@,
        FreshnessBadge::SourceDown => "SOURCE DOWN"@,
        FreshnessBadge::Unknown => "UNKNOWN"@,
        FreshnessBadge::NoProof => "NO PROOF"@,
        FreshnessBadge::Unverified => "UNVERIFIED"@,
        FreshnessBadge::Poll => "[poll]"@,
        FreshnessBadge::Fixture => "FIXTURE"@,
    }
}

impl FreshnessBadge {
    /// Pinned display label.
    pub fn label(self) -> (r: &'static str)
        ensures
            r@ == freshness_label(self),
    {
        match self {
            FreshnessBadge::Live => "LIVE",
            FreshnessBadge::Fresh => "FRESH",
            FreshnessBadge::Expired => "EXPIRED",
            FreshnessBadge::LastKnown => "LAST KNOWN",
            FreshnessBadge::Inferred => "INFERRED",
            FreshnessBadge::Partial => "PARTIAL",
            FreshnessBadge::SourceDown => "SOURCE DOWN",
            FreshnessBadge::Unknown => "UNKNOWN",
            FreshnessBadge::NoProof => "NO PROOF",
            FreshnessBadge::Unverified => "UNVERIFIED",
            FreshnessBadge::Poll => "[poll]",
            FreshnessBadge::Fixture => "FIXTURE",
        }
    }
}

/// Proof confidence variants.
#[derive(Debug, Clone, Copy, PartialEq, Eq, Structural)]
pub enum ProofBadge {
    Meas,
    Struct,
    Hist,
    Heur,
    Miss,
    Expired,
}

/// Pinned display label of a proof badge.
pub open spec fn proof_label(b: ProofBadge) -> Seq<char> {
    match b {
        ProofBadge::Meas => "MEAS"@,
        ProofBadge::Struct => "STRUCT"@,
        ProofBadge::Hist => "HIST"@,
        ProofBadge::Heur => "HEUR"@,
        ProofBadge::Miss => "MISS"@,
        ProofBadge::Expired => "EXPIRED"@,
    }
}

impl ProofBadge {
    /// Pinned display label.
    pub fn label(self) -> (r: &'static str)
        ensures
            r@ == proof_label(self),
    {
        match self {
            ProofBadge::Meas => "MEAS",
            ProofBadge::Struct => "STRUCT",
            ProofBadge::Hist => "HIST",
            ProofBadge::Heur => "HEUR",
            ProofBadge::Miss => "MISS",
            ProofBadge::Expired => "EXPIRED",
        }
    }
}

/// Canonical R0-R5 risk tiers.
#[derive(Debug, Clone, Copy, PartialEq, Eq, Structural)]
pub enum RiskBadge {
    R0,
    R1,
    R2,
    R3,
    R4,
    R5,
}

/// Human-named risk aliases; they map onto the R0-R5 tiers through
/// `RiskBadge::from`.
#[derive(Debug, Clone, Copy, PartialEq, Eq, Structural)]
pub enum NamedRiskTier {
    ReadOnly,
    Low,
    High,
    Production,
}

/// Pinned display label of a risk tier.
pub open spec fn risk_label(b: RiskBadge) -> Seq<char> {
    match b {
        RiskBadge::R0 => "R0"@,
        RiskBadge::R1 => "R1"@,
        RiskBadge::R2 => "R2"@,
        RiskBadge::R3 => "R3"@,
        RiskBadge::R4 => "R4"@,
        RiskBadge::R5 => "R5"@,
    }
}

/// Glyph of a risk tier (read / local / ci / repo / release / destructive).
pub open spec fn risk_glyph(b: RiskBadge) -> Seq<char> {
    match b {
        RiskBadge::R0 => "▸"@,
        RiskBadge::R1 => "◇"@,
        RiskBadge::R2 => "◉"@,
        RiskBadge::R3 => "▣"@,
        RiskBadge::R4 => "▮"@,
        RiskBadge::R5 => "✦"@,
    }
}

/// Migration map of the named aliases: `ReadOnly -> R0`, `Low -> R1`,
/// `High -> R3`, `Production -> R4` (R2 and R5 are only reached by explicit
/// per-action upgrades).
pub open spec fn risk_of_named(t: NamedRiskTier) -> RiskBadge {
    match t {
        NamedRiskTier::ReadOnly => RiskBadge::R0,
        NamedRiskTier::Low => RiskBadge::R1,
        NamedRiskTier::High => RiskBadge::R3,
        NamedRiskTier::Production => RiskBadge::R4,
    }
}

impl RiskBadge {
    /// Pinned display label.
    pub fn label(self) -> (r: &'static str)
        ensures
            r@ == risk_label(self),
    {
        match self {
            RiskBadge::R0 => "R0",
            RiskBadge::R1 => "R1",
            RiskBadge::R2 => "R2",
            RiskBadge::R3 => "R3",
            RiskBadge::R4 => "R4",
            RiskBadge::R5 => "R5",
        }
    }

    /// Risk-tier glyph.
    pub fn glyph(self) -> (r: &'static str)
        ensures
            r@ == risk_glyph(self),
    {
        match self {
            RiskBadge::R0 => "▸",
            RiskBadge::R1 => "◇",
            RiskBadge::R2 => "◉",
            RiskBadge::R3 => "▣",
            RiskBadge::R4 => "▮",
            RiskBadge::R5 => "✦",
        }
    }
}

impl From<NamedRiskTier> for RiskBadge {
    /// Migration map: `ReadOnly -> R0`, `Low -> R1`, `High -> R3`,
    /// `Production -> R4`.
    fn from(tier: NamedRiskTier) -> (r: RiskBadge) {
        match tier {
            NamedRiskTier::ReadOnly => RiskBadge::R0,
            NamedRiskTier::Low => RiskBadge::R1,
            NamedRiskTier::High => RiskBadge::R3,
            NamedRiskTier::Production => RiskBadge::R4,
        }
    }
}

impl vstd::std_specs::convert::FromSpecImpl<NamedRiskTier> for RiskBadge {
    open spec fn obeys_from_spec() -> bool {
        true
    }

    open spec fn from_spec(v: NamedRiskTier) -> RiskBadge {
        risk_of_named(v)
    }
}

/// The badge of a change's risk tier: the tier of the same number.
pub open spec fn risk_of_tier(t: RiskTier) -> RiskBadge {
    match t {
        RiskTier::R0 => RiskBadge::R0,
        RiskTier::R1 => RiskBadge::R1,
        RiskTier::R2 => RiskBadge::R2,
        RiskTier::R3 => RiskBadge::R3,
        RiskTier::R4 => RiskBadge::R4,
        RiskTier::R5 => RiskBadge::R5,
    }
}

impl From<RiskTier> for RiskBadge {
    /// A change's risk tier renders as the badge of the same number.
    fn from(tier: RiskTier) -> (r: RiskBadge) {
        match tier {
            RiskTier::R0 => RiskBadge::R0,
            RiskTier::R1 => RiskBadge::R1,
            RiskTier::R2 => RiskBadge::R2,
            RiskTier::R3 => RiskBadge::R3,
            RiskTier::R4 => RiskBadge::R4,
            RiskTier::R5 => RiskBadge::R5,
        }
    }
}

impl vstd::std_specs::convert::FromSpecImpl<RiskTier> for RiskBadge {
    open spec fn obeys_from_spec() -> bool {
        true
    }

    open spec fn from_spec(v: RiskTier) -> RiskBadge {
        risk_of_tier(v)
    }
}

/// Every badge label and every risk glyph is non-empty.
pub proof fn lemma_badge_texts_non_empty(f: FreshnessBadge, p: ProofBadge, r: RiskBadge)
    ensures
        freshness_label(f).len() > 0,
        proof_label(p).len() > 0,
        risk_label(r).len() > 0,
        risk_glyph(r).len() > 0,
{
    reveal_strlit("EXPIRED");
    reveal_strlit("FIXTURE");
    reveal_strlit("FRESH");
    reveal_strlit("HEUR");
    reveal_strlit("HIST");
    reveal_strlit("INFERRED");
    reveal_strlit("LAST KNOWN");
    reveal_strlit("LIVE");
    reveal_strlit("MEAS");
    reveal_strlit("MISS");
    reveal_strlit("NO PROOF");
    reveal_strlit("PARTIAL");
    reveal_strlit("R0");
    reveal_strlit("R1");
    reveal_strlit("R2");
    reveal_strlit("R3");
    reveal_strlit("R4");
    reveal_strlit("R5");
    reveal_strlit("SOURCE DOWN");
    reveal_strlit("STRUCT");
    reveal_strlit("UNKNOWN");
    reveal_strlit("UNVERIFIED");
    reveal_strlit("[poll]");
    reveal_strlit("▣");
    reveal_strlit("▮");
    reveal_strlit("▸");
    reveal_strlit("◇");
    reveal_strlit("◉");
    reveal_strlit("✦");
}

} // verus!
