//! Semantic glyph inventory.
//!
//! Every `Glyph` variant has a non-empty unicode rendering and a non-empty
//! ASCII alternate for terminals without unicode support.

use vstd::prelude::*;

verus! {

/// Semantic glyph inventory.
#[derive(Debug, Clone, Copy, PartialEq, Eq, Structural)]
pub enum Glyph {
    Running,
    Active,
    Queued,
    Waiting,
    Passed,
    Failed,
    Blocked,
    Skipped,
    Proof,
    Paused,
    Grant,
    Release,
    Warn,
    Expired,
}

/// The unicode rendering of each glyph.
pub open spec fn glyph_unicode(g: Glyph) -> Seq<char> {
    match g {
        Glyph::Running => "●"@,
        Glyph::Active => "▶"@,
        Glyph::Queued => "○"@,
        Glyph::Waiting => "…"@,
        Glyph::Passed => "✓"@,
        Glyph::Failed => "✗"@,
        Glyph::Blocked => "⛔"@,
        Glyph::Skipped => "↷"@,
        Glyph::Proof => "◆"@,
        Glyph::Paused => "⏸"@,
        Glyph::Grant => "⚿"@,
        Glyph::Release => "⬢"@,
        Glyph::Warn => "!"@,
        Glyph::Expired => "~"@,
    }
}

/// The ASCII alternate of each glyph.
pub open spec fn glyph_ascii(g: Glyph) -> Seq<char> {
    match g {
        Glyph::Running => "*"@,
        Glyph::Active => ">"@,
        Glyph::Queued => "o"@,
        Glyph::Waiting => "..."@,
        Glyph::Passed => "v"@,
        Glyph::Failed => "x"@,
        Glyph::Blocked => "X"@,
        Glyph::Skipped => "/"@,
        Glyph::Proof => "#"@,
        Glyph::Paused => "||"@,
        Glyph::Grant => "K"@,
        Glyph::Release => "R"@,
        Glyph::Warn => "!"@,
        Glyph::Expired => "~"@,
    }
}

impl Glyph {
    /// The whole inventory, for exhaustive iteration.
    pub const ALL: [Glyph; 14] = [
        Glyph::Running,
        Glyph::Active,
        Glyph::Queued,
        Glyph::Waiting,
        Glyph::Passed,
        Glyph::Failed,
        Glyph::Blocked,
        Glyph::Skipped,
        Glyph::Proof,
        Glyph::Paused,
        Glyph::Grant,
        Glyph::Release,
        Glyph::Warn,
        Glyph::Expired,
    ];

    /// Unicode glyph (default rendering).
    pub fn unicode(self) -> (r: &'static str)
        ensures
            r@ == glyph_unicode(self),
    {
        match self {
            Glyph::Running => "●",
            Glyph::Active => "▶",
            Glyph::Queued => "○",
            Glyph::Waiting => "…",
            Glyph::Passed => "✓",
            Glyph::Failed => "✗",
            Glyph::Blocked => "⛔",
            Glyph::Skipped => "↷",
            Glyph::Proof => "◆",
            Glyph::Paused => "⏸",
            Glyph::Grant => "⚿",
            Glyph::Release => "⬢",
            Glyph::Warn => "!",
            Glyph::Expired => "~",
        }
    }

    /// ASCII alternate for no-unicode terminals.
    pub fn ascii_alternate(self) -> (r: &'static str)
        ensures
            r@ == glyph_ascii(self),
    {
        match self {
            Glyph::Running => "*",
            Glyph::Active => ">",
            Glyph::Queued => "o",
            Glyph::Waiting => "...",
            Glyph::Passed => "v",
            Glyph::Failed => "x",
            Glyph::Blocked => "X",
            Glyph::Skipped => "/",
            Glyph::Proof => "#",
            Glyph::Paused => "||",
            Glyph::Grant => "K",
            Glyph::Release => "R",
            Glyph::Warn => "!",
            Glyph::Expired => "~",
        }
    }

    /// The unicode glyph when `unicode_ok`, otherwise the ASCII alternate.
    pub fn render(self, unicode_ok: bool) -> (r: &'static str)
        ensures
            r@ == (if unicode_ok { glyph_unicode(self) } else { glyph_ascii(self) }),
    {
        if unicode_ok {
            self.unicode()
        } else {
            self.ascii_alternate()
        }
    }
}

/// Every glyph has a non-empty unicode rendering and a non-empty, all-ASCII
/// alternate.
pub proof fn lemma_every_glyph_has_ascii_alternate(g: Glyph)
    ensures
        glyph_unicode(g).len() > 0,
        glyph_ascii(g).len() > 0,
        vstd::utf8::is_ascii_chars(glyph_ascii(g)),
{
    reveal_strlit("●");
    reveal_strlit("▶");
    reveal_strlit("○");
    reveal_strlit("…");
    reveal_strlit("✓");
    reveal_strlit("✗");
    reveal_strlit("⛔");
    reveal_strlit("↷");
    reveal_strlit("◆");
    reveal_strlit("⏸");
    reveal_strlit("⚿");
    reveal_strlit("⬢");
    reveal_strlit("!");
    reveal_strlit("~");
    reveal_strlit("*");
    reveal_strlit(">");
    reveal_strlit("o");
    reveal_strlit("...");
    reveal_strlit("v");
    reveal_strlit("x");
    reveal_strlit("X");
    reveal_strlit("/");
    reveal_strlit("#");
    reveal_strlit("||");
    reveal_strlit("K");
    reveal_strlit("R");
}

} // verus!
