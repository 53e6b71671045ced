//! Terminal capability detection from already-extracted environment values.
//!
//! Reading the process environment belongs to the application layer; the
//! decision below is a pure function of the five values it reads
//! (`COLORTERM`, `TERM`, `NO_COLOR`, `LANG`, `LC_ALL`).

use vstd::prelude::*;

use crate::text::{
    ascii_upper_seq, chars_contain, chars_eq_ignore_ascii_case, chars_of, chars_start_with,
    chars_to_ascii_upper, eq_ignore_ascii_case, has_infix, has_prefix,
};

verus! {

/// Capability flags for a terminal. Higher levels imply lower levels:
/// `supports_truecolor` ⇒ `supports_256` ⇒ `supports_color`.
#[derive(Debug, Clone, Copy, PartialEq, Eq, Structural)]
pub struct TerminalCaps {
    pub supports_truecolor: bool,
    pub supports_256: bool,
    pub supports_color: bool,
    pub supports_unicode: bool,
}

/// The text of an optional environment value.
pub open spec fn env_text(v: Option<&str>) -> Option<Seq<char>> {
    match v {
        Some(s) => Some(s@),
        None => None,
    }
}

/// `NO_COLOR` disables color when it is set and non-empty.
pub open spec fn no_color_requested(no_color: Option<Seq<char>>) -> bool {
    match no_color {
        Some(v) => v.len() > 0,
        None => false,
    }
}

/// `COLORTERM` announces 24-bit color.
pub open spec fn colorterm_is_truecolor(colorterm: Option<Seq<char>>) -> bool {
    match colorterm {
        Some(v) => eq_ignore_ascii_case(v, "truecolor"@) || eq_ignore_ascii_case(v, "24bit"@),
        None => false,
    }
}

/// `TERM` names a 256-color (or direct-color) terminal.
pub open spec fn term_is_256(term: Option<Seq<char>>) -> bool {
    match term {
        Some(t) => has_infix(t, "256"@) || has_infix(t, "direct"@),
        None => false,
    }
}

/// `TERM` names a terminal that is known to draw basic color.
pub open spec fn term_is_color(term: Option<Seq<char>>) -> bool {
    match term {
        Some(t) => t != "dumb"@ && (has_infix(t, "color"@) || has_prefix(t, "xterm"@) || has_prefix(
            t,
            "screen"@,
        ) || has_prefix(t, "tmux"@) || has_prefix(t, "rxvt"@) || has_prefix(t, "vt"@)),
        None => false,
    }
}

/// The effective locale: `LC_ALL` when set, else `LANG`, else empty.
pub open spec fn effective_locale(lang: Option<Seq<char>>, lc_all: Option<Seq<char>>) -> Seq<
    char,
> {
    match lc_all {
        Some(v) => v,
        None => match lang {
            Some(v) => v,
            None => Seq::empty(),
        },
    }
}

/// The locale announces UTF-8 (in any ASCII case, with or without the dash).
pub open spec fn locale_is_utf8(locale: Seq<char>) -> bool {
    has_infix(ascii_upper_seq(locale), "UTF-8"@) || has_infix(ascii_upper_seq(locale), "UTF8"@)
}

/// The capabilities announced by the five environment values.
pub open spec fn caps_from_env(
    colorterm: Option<Seq<char>>,
    term: Option<Seq<char>>,
    no_color: Option<Seq<char>>,
    lang: Option<Seq<char>>,
    lc_all: Option<Seq<char>>,
) -> TerminalCaps {
    let off = no_color_requested(no_color);
    let truecolor = !off && colorterm_is_truecolor(colorterm);
    let c256 = !off && (truecolor || term_is_256(term));
    let color = !off && (c256 || term_is_color(term));
    TerminalCaps {
        supports_truecolor: truecolor,
        supports_256: c256,
        supports_color: color,
        supports_unicode: locale_is_utf8(effective_locale(lang, lc_all)),
    }
}

/// The characters of an optional text.
fn opt_chars(v: Option<&str>) -> (r: Option<Vec<char>>)
    ensures
        match (v, r) {
            (Some(s), Some(c)) => c@ == s@,
            (None, None) => true,
            _ => false,
        },
{
    match v {
        Some(s) => Some(chars_of(s)),
        None => None,
    }
}

impl TerminalCaps {
    /// Conservative ASCII / no-color capabilities.
    pub fn ascii_only() -> (r: TerminalCaps)
        ensures
            !r.supports_truecolor && !r.supports_256 && !r.supports_color && !r.supports_unicode,
    {
        TerminalCaps {
            supports_truecolor: false,
            supports_256: false,
            supports_color: false,
            supports_unicode: false,
        }
    }

    /// Full truecolor + unicode capabilities.
    pub fn truecolor_unicode() -> (r: TerminalCaps)
        ensures
            r.supports_truecolor && r.supports_256 && r.supports_color && r.supports_unicode,
    {
        TerminalCaps {
            supports_truecolor: true,
            supports_256: true,
            supports_color: true,
            supports_unicode: true,
        }
    }

    /// Capabilities from already-extracted environment values.
    pub fn from_env_values(
        colorterm: Option<&str>,
        term: Option<&str>,
        no_color: Option<&str>,
        lang: Option<&str>,
        lc_all: Option<&str>,
    ) -> (r: TerminalCaps)
        ensures
            r == caps_from_env(
                env_text(colorterm),
                env_text(term),
                env_text(no_color),
                env_text(lang),
                env_text(lc_all),
            ),
    {
        let no_color_set = match no_color {
            Some(v) => !v.is_empty(),
            None => false,
        };
        let truecolor_word = chars_of("truecolor");
        let bit24_word = chars_of("24bit");
        let colorterm_ok = match opt_chars(colorterm) {
            Some(v) => chars_eq_ignore_ascii_case(&v, &truecolor_word) || chars_eq_ignore_ascii_case(
                &v,
                &bit24_word,
            ),
            None => false,
        };
        let supports_truecolor = !no_color_set && colorterm_ok;
        let term_chars = opt_chars(term);
        let term_256 = match &term_chars {
            Some(t) => chars_contain(t, &chars_of("256")) || chars_contain(t, &chars_of("direct")),
            None => false,
        };
        let supports_256 = !no_color_set && (supports_truecolor || term_256);
        let term_color = match &term_chars {
            Some(t) => {
                let not_dumb = !chars_eq_exact(t, &chars_of("dumb"));
                not_dumb && (chars_contain(t, &chars_of("color")) || chars_start_with(
                    t,
                    &chars_of("xterm"),
                ) || chars_start_with(t, &chars_of("screen")) || chars_start_with(
                    t,
                    &chars_of("tmux"),
                ) || chars_start_with(t, &chars_of("rxvt")) || chars_start_with(
                    t,
                    &chars_of("vt"),
                ))
            },
            None => false,
        };
        let supports_color = !no_color_set && (supports_256 || term_color);
        let locale: Vec<char> = match opt_chars(lc_all) {
            Some(v) => v,
            None => match opt_chars(lang) {
                Some(v) => v,
                None => Vec::new(),
            },
        };
        let upper = chars_to_ascii_upper(&locale);
        let supports_unicode = chars_contain(&upper, &chars_of("UTF-8")) || chars_contain(
            &upper,
            &chars_of("UTF8"),
        );
        TerminalCaps { supports_truecolor, supports_256, supports_color, supports_unicode }
    }
}

/// Whether two character lists are equal.
fn chars_eq_exact(a: &[char], b: &[char]) -> (r: bool)
    ensures
        r == (a@ == b@),
{
    if a.len() != b.len() {
        return false;
    }
    let mut i: usize = 0;
    while i < a.len()
        invariant
            a@.len() == b@.len(),
            i <= a@.len(),
            forall|j: int| 0 <= j < i ==> a@[j] == b@[j],
        decreases a@.len() - i,
    {
        if a[i] != b[i] {
            return false;
        }
        i = i + 1;
    }
    assert(a@ =~= b@);
    true
}

impl Default for TerminalCaps {
    /// The conservative ASCII / no-color capabilities.
    fn default() -> (r: TerminalCaps)
        ensures
            r == (TerminalCaps {
                supports_truecolor: false,
                supports_256: false,
                supports_color: false,
                supports_unicode: false,
            }),
    {
        TerminalCaps::ascii_only()
    }
}

/// Capability levels nest: truecolor implies 256 colors, which implies basic
/// color; a non-empty `NO_COLOR` turns every color level off.
pub proof fn lemma_caps_levels_nest(
    colorterm: Option<Seq<char>>,
    term: Option<Seq<char>>,
    no_color: Option<Seq<char>>,
    lang: Option<Seq<char>>,
    lc_all: Option<Seq<char>>,
)
    ensures
        ({
            let c = caps_from_env(colorterm, term, no_color, lang, lc_all);
            &&& c.supports_truecolor ==> c.supports_256
            &&& c.supports_256 ==> c.supports_color
            &&& no_color_requested(no_color) ==> !c.supports_truecolor && !c.supports_256
                && !c.supports_color
        }),
{
}

/// A `TERM` of the xterm, GNU screen, tmux, rxvt or vt families (by its
/// prefix), or one that names `color` anywhere, draws basic color whenever
/// `NO_COLOR` is unset or empty, whatever the other values say.
pub proof fn lemma_color_terminal_families(
    colorterm: Option<Seq<char>>,
    t: Seq<char>,
    no_color: Option<Seq<char>>,
    lang: Option<Seq<char>>,
    lc_all: Option<Seq<char>>,
)
    requires
        match no_color {
            Some(v) => v.len() == 0,
            None => true,
        },
        "xterm"@.is_prefix_of(t) || "screen"@.is_prefix_of(t) || "tmux"@.is_prefix_of(t)
            || "rxvt"@.is_prefix_of(t) || "vt"@.is_prefix_of(t) || exists|i: int|
            0 <= i && i + 5 <= t.len() && #[trigger] t.subrange(i, i + 5) == "color"@,
    ensures
        caps_from_env(colorterm, Some(t), no_color, lang, lc_all).supports_color,
{
    reveal_strlit("xterm");
    reveal_strlit("screen");
    reveal_strlit("tmux");
    reveal_strlit("rxvt");
    reveal_strlit("vt");
    reveal_strlit("color");
    reveal_strlit("dumb");
    if "xterm"@.is_prefix_of(t) || "screen"@.is_prefix_of(t) || "tmux"@.is_prefix_of(t)
        || "rxvt"@.is_prefix_of(t) || "vt"@.is_prefix_of(t) {
        assert(t.len() > 0);
        assert(t[0] != 'd') by {
            if "xterm"@.is_prefix_of(t) {
                assert(t[0] == t.subrange(0, 5)[0]);
            } else if "screen"@.is_prefix_of(t) {
                assert(t[0] == t.subrange(0, 6)[0]);
            } else if "tmux"@.is_prefix_of(t) {
                assert(t[0] == t.subrange(0, 4)[0]);
            } else if "rxvt"@.is_prefix_of(t) {
                assert(t[0] == t.subrange(0, 4)[0]);
            } else {
                assert(t[0] == t.subrange(0, 2)[0]);
            }
        }
        assert(t != "dumb"@);
        if "xterm"@.is_prefix_of(t) {
            assert(has_prefix(t, "xterm"@));
        } else if "screen"@.is_prefix_of(t) {
            assert(has_prefix(t, "screen"@));
        } else if "tmux"@.is_prefix_of(t) {
            assert(has_prefix(t, "tmux"@));
        } else if "rxvt"@.is_prefix_of(t) {
            assert(has_prefix(t, "rxvt"@));
        } else {
            assert(has_prefix(t, "vt"@));
        }
    } else {
        let i = choose|i: int| 0 <= i && i + 5 <= t.len() && #[trigger] t.subrange(i, i + 5) == "color"@;
        assert(t.subrange(i, i + "color"@.len()) == "color"@);
        assert(has_infix(t, "color"@));
        assert(t.len() >= 5);
        assert(t != "dumb"@);
    }
    assert(term_is_color(Some(t)));
}

/// With `NO_COLOR` unset or empty: `COLORTERM=truecolor` or `COLORTERM=24bit`
/// announces 24-bit color, and a `TERM` naming `256` announces 256 colors.
/// Without `COLORTERM`, `TERM=dumb` draws no color at all, and neither does a
/// terminal with neither `TERM` nor `COLORTERM` set.
pub proof fn lemma_env_color_levels(
    colorterm: Option<Seq<char>>,
    term: Option<Seq<char>>,
    no_color: Option<Seq<char>>,
    lang: Option<Seq<char>>,
    lc_all: Option<Seq<char>>,
)
    ensures
        ({
            let c = caps_from_env(colorterm, term, no_color, lang, lc_all);
            let color_allowed = match no_color {
                Some(v) => v.len() == 0,
                None => true,
            };
            &&& color_allowed && (colorterm == Some("truecolor"@) || colorterm == Some("24bit"@))
                ==> c.supports_truecolor
            &&& color_allowed && (term matches Some(t) && exists|i: int|
                0 <= i && i + 3 <= t.len() && #[trigger] t.subrange(i, i + 3) == "256"@)
                ==> c.supports_256
            &&& colorterm is None && term == Some("dumb"@) ==> !c.supports_color
            &&& colorterm is None && term is None ==> !c.supports_color
        }),
{
    reveal_strlit("truecolor");
    reveal_strlit("24bit");
    reveal_strlit("256");
    reveal_strlit("dumb");
    reveal_strlit("direct");
    reveal_strlit("color");
    reveal_strlit("xterm");
    reveal_strlit("screen");
    reveal_strlit("tmux");
    reveal_strlit("rxvt");
    reveal_strlit("vt");
    if let Some(t) = term {
        if exists|i: int| 0 <= i && i + 3 <= t.len() && #[trigger] t.subrange(i, i + 3) == "256"@ {
            let i = choose|i: int| 0 <= i && i + 3 <= t.len() && #[trigger] t.subrange(i, i + 3) == "256"@;
            assert(t.subrange(i, i + "256"@.len()) == "256"@);
            assert(has_infix(t, "256"@));
        }
    }
    if colorterm is None && term == Some("dumb"@) {
        let d = "dumb"@;
        assert forall|i: int| 0 <= i && i + 3 <= d.len() implies #[trigger] d.subrange(i, i + 3)
            != "256"@ by {
            assert(d.subrange(i, i + 3)[0] == d[i]);
        }
        assert(!has_infix(d, "256"@));
        assert forall|i: int| 0 <= i && i + 6 <= d.len() implies #[trigger] d.subrange(i, i + 6)
            != "direct"@ by {
        }
        assert(!has_infix(d, "direct"@));
        assert(!term_is_256(term));
        assert(!term_is_color(term));
    }
}

/// `LC_ALL`, when set, alone decides Unicode support, whatever `LANG` says;
/// a locale naming `UTF-8` or `UTF8` (in upper case) announces it; with
/// neither `LC_ALL` nor `LANG` set there is no Unicode support.
pub proof fn lemma_env_unicode(
    colorterm: Option<Seq<char>>,
    term: Option<Seq<char>>,
    no_color: Option<Seq<char>>,
    lang: Option<Seq<char>>,
    other_lang: Option<Seq<char>>,
    l: Seq<char>,
)
    ensures
        caps_from_env(colorterm, term, no_color, lang, Some(l)).supports_unicode == caps_from_env(
            colorterm,
            term,
            no_color,
            other_lang,
            Some(l),
        ).supports_unicode,
        (exists|i: int| 0 <= i && i + 5 <= l.len() && #[trigger] l.subrange(i, i + 5) == "UTF-8"@)
            ==> caps_from_env(colorterm, term, no_color, lang, Some(l)).supports_unicode,
        (exists|i: int| 0 <= i && i + 4 <= l.len() && #[trigger] l.subrange(i, i + 4) == "UTF8"@)
            ==> caps_from_env(colorterm, term, no_color, None, Some(l)).supports_unicode,
        !caps_from_env(colorterm, term, no_color, None, None).supports_unicode,
{
    reveal_strlit("UTF-8");
    reveal_strlit("UTF8");
    let u = ascii_upper_seq(l);
    if exists|i: int| 0 <= i && i + 5 <= l.len() && #[trigger] l.subrange(i, i + 5) == "UTF-8"@ {
        let i = choose|i: int| 0 <= i && i + 5 <= l.len() && #[trigger] l.subrange(i, i + 5) == "UTF-8"@;
        assert forall|k: int| 0 <= k < 5 implies u.subrange(i, i + 5)[k] == "UTF-8"@[k] by {
            assert(l.subrange(i, i + 5)[k] == l[i + k]);
        }
        assert(u.subrange(i, i + "UTF-8"@.len()) =~= "UTF-8"@);
        assert(has_infix(u, "UTF-8"@));
    }
    if exists|i: int| 0 <= i && i + 4 <= l.len() && #[trigger] l.subrange(i, i + 4) == "UTF8"@ {
        let i = choose|i: int| 0 <= i && i + 4 <= l.len() && #[trigger] l.subrange(i, i + 4) == "UTF8"@;
        assert forall|k: int| 0 <= k < 4 implies u.subrange(i, i + 4)[k] == "UTF8"@[k] by {
            assert(l.subrange(i, i + 4)[k] == l[i + k]);
        }
        assert(u.subrange(i, i + "UTF8"@.len()) =~= "UTF8"@);
        assert(has_infix(u, "UTF8"@));
    }
    let e = ascii_upper_seq(Seq::<char>::empty());
    assert(e.len() == 0);
    assert(!has_infix(e, "UTF-8"@));
    assert(!has_infix(e, "UTF8"@));
}

} // verus!
