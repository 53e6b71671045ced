use jeryu_tui::lenses::approvals::RiskTier;
use jeryu_tui::theme::badges::{FreshnessBadge, NamedRiskTier, ProofBadge, RiskBadge};
use jeryu_tui::theme::glyphs::Glyph;
use jeryu_tui::theme::terminal_caps::TerminalCaps;

#[test]
fn freshness_badge_labels_are_pinned() {
    assert_eq!(FreshnessBadge::Live.label(), "LIVE");
    assert_eq!(FreshnessBadge::Fresh.label(), "FRESH");
    assert_eq!(FreshnessBadge::Expired.label(), "EXPIRED");
    assert_eq!(FreshnessBadge::LastKnown.label(), "LAST KNOWN");
    assert_eq!(FreshnessBadge::Inferred.label(), "INFERRED");
    assert_eq!(FreshnessBadge::Partial.label(), "PARTIAL");
    assert_eq!(FreshnessBadge::SourceDown.label(), "SOURCE DOWN");
    assert_eq!(FreshnessBadge::Unknown.label(), "UNKNOWN");
    assert_eq!(FreshnessBadge::NoProof.label(), "NO PROOF");
    assert_eq!(FreshnessBadge::Unverified.label(), "UNVERIFIED");
    assert_eq!(FreshnessBadge::Poll.label(), "[poll]");
    assert_eq!(FreshnessBadge::Fixture.label(), "FIXTURE");
}

#[test]
fn proof_badge_labels_are_pinned() {
    assert_eq!(ProofBadge::Meas.label(), "MEAS");
    assert_eq!(ProofBadge::Struct.label(), "STRUCT");
    assert_eq!(ProofBadge::Hist.label(), "HIST");
    assert_eq!(ProofBadge::Heur.label(), "HEUR");
    assert_eq!(ProofBadge::Miss.label(), "MISS");
    assert_eq!(ProofBadge::Expired.label(), "EXPIRED");
}

#[test]
fn risk_badge_named_aliases() {
    assert_eq!(RiskBadge::from(NamedRiskTier::ReadOnly), RiskBadge::R0);
    assert_eq!(RiskBadge::from(NamedRiskTier::Low), RiskBadge::R1);
    assert_eq!(RiskBadge::from(NamedRiskTier::High), RiskBadge::R3);
    assert_eq!(RiskBadge::from(NamedRiskTier::Production), RiskBadge::R4);
}

#[test]
fn risk_badge_labels_and_glyphs_are_pinned() {
    let risk = [
        (RiskBadge::R0, "R0", "▸"),
        (RiskBadge::R1, "R1", "◇"),
        (RiskBadge::R2, "R2", "◉"),
        (RiskBadge::R3, "R3", "▣"),
        (RiskBadge::R4, "R4", "▮"),
        (RiskBadge::R5, "R5", "✦"),
    ];
    for (b, label, glyph) in risk {
        assert_eq!(b.label(), label);
        assert_eq!(b.glyph(), glyph);
    }
}

#[test]
fn every_glyph_has_ascii_alternate() {
    for g in Glyph::ALL {
        let a = g.ascii_alternate();
        assert!(!a.is_empty() && a.is_ascii(), "{g:?} alternate non-empty ASCII");
        assert!(!g.unicode().is_empty(), "{g:?} unicode non-empty");
    }
}

#[test]
fn render_switches_on_unicode_capability() {
    assert_eq!(Glyph::Passed.render(true), "✓");
    assert_eq!(Glyph::Passed.render(false), "v");
    assert_eq!(Glyph::Failed.render(true), "✗");
    assert_eq!(Glyph::Failed.render(false), "x");
}

#[test]
fn unicode_glyphs_match_inventory() {
    assert_eq!(Glyph::Running.unicode(), "●");
    assert_eq!(Glyph::Active.unicode(), "▶");
    assert_eq!(Glyph::Queued.unicode(), "○");
    assert_eq!(Glyph::Waiting.unicode(), "…");
    assert_eq!(Glyph::Proof.unicode(), "◆");
    assert_eq!(Glyph::Grant.unicode(), "⚿");
    assert_eq!(Glyph::Release.unicode(), "⬢");
}

#[test]
fn ascii_alternates_match_inventory() {
    assert_eq!(Glyph::Waiting.ascii_alternate(), "...");
    assert_eq!(Glyph::Paused.ascii_alternate(), "||");
    assert_eq!(Glyph::Blocked.ascii_alternate(), "X");
    assert_eq!(Glyph::Expired.render(false), "~");
}

#[test]
fn empty_env_is_conservative() {
    let c = TerminalCaps::from_env_values(None, None, None, None, None);
    assert!(!c.supports_truecolor && !c.supports_256 && !c.supports_color && !c.supports_unicode);
}

#[test]
fn truecolor_implies_256_and_color() {
    let c = TerminalCaps::from_env_values(Some("truecolor"), Some("xterm"), None, None, None);
    assert!(c.supports_truecolor && c.supports_256 && c.supports_color);
}

#[test]
fn colorterm_24bit_accepted() {
    let c = TerminalCaps::from_env_values(Some("24BIT"), Some("xterm"), None, None, None);
    assert!(c.supports_truecolor);
}

#[test]
fn term_256color_enables_256_not_truecolor() {
    let c = TerminalCaps::from_env_values(None, Some("xterm-256color"), None, None, None);
    assert!(!c.supports_truecolor && c.supports_256 && c.supports_color);
}

#[test]
fn term_xterm_enables_basic_color_only() {
    let c = TerminalCaps::from_env_values(None, Some("xterm"), None, None, None);
    assert!(!c.supports_truecolor && !c.supports_256 && c.supports_color);
}

#[test]
fn term_dumb_disables_heuristic_color() {
    let c = TerminalCaps::from_env_values(None, Some("dumb"), None, None, None);
    assert!(!c.supports_color);
}

#[test]
fn no_color_overrides_everything() {
    let c = TerminalCaps::from_env_values(
        Some("truecolor"),
        Some("xterm-256color"),
        Some("1"),
        None,
        None,
    );
    assert!(!c.supports_truecolor && !c.supports_256 && !c.supports_color);
}

#[test]
fn utf8_locale_enables_unicode() {
    let lang = TerminalCaps::from_env_values(None, None, None, Some("en_US.UTF-8"), None);
    let lc = TerminalCaps::from_env_values(None, None, None, Some("C"), Some("en_US.UTF-8"));
    assert!(lang.supports_unicode && lc.supports_unicode);
}

#[test]
fn lc_all_wins_over_lang_and_empty_no_color_is_ignored() {
    let c = TerminalCaps::from_env_values(None, Some("tmux-direct"), Some(""), Some("en_US.utf8"), Some("C"));
    assert!(!c.supports_unicode);
    assert!(c.supports_256 && c.supports_color && !c.supports_truecolor);
    let lower = TerminalCaps::from_env_values(None, Some("vt100"), None, Some("de_DE.utf8"), None);
    assert!(lower.supports_unicode && lower.supports_color && !lower.supports_256);
}

#[test]
fn caps_constructors_and_default() {
    assert_eq!(TerminalCaps::default(), TerminalCaps::ascii_only());
    let full = TerminalCaps::truecolor_unicode();
    assert!(full.supports_truecolor && full.supports_256 && full.supports_color && full.supports_unicode);
}

#[test]
fn pull_request_risk_tiers_map_to_badges_of_the_same_number() {
    assert_eq!(RiskBadge::from(RiskTier::R0), RiskBadge::R0);
    assert_eq!(RiskBadge::from(RiskTier::R1), RiskBadge::R1);
    assert_eq!(RiskBadge::from(RiskTier::R2), RiskBadge::R2);
    assert_eq!(RiskBadge::from(RiskTier::R3), RiskBadge::R3);
    assert_eq!(RiskBadge::from(RiskTier::R4), RiskBadge::R4);
    assert_eq!(RiskBadge::from(RiskTier::R5), RiskBadge::R5);
    assert_eq!(RiskBadge::from(RiskTier::R4).label(), "R4");
}
