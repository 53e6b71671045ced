//! Pane chrome decisions driven by the focus state: which pane is active,
//! whether it shows the `Esc` back affordance, and the pane title.

use vstd::prelude::*;

use super::pane::{pane_label, PaneId};
use super::state::FocusState;

verus! {

/// The back affordance shown in the title of a drilled-into pane.
pub open spec fn esc_affordance() -> Seq<char> {
    " Esc ◂ back "@
}

/// Whether `pane` shows the back affordance under `focus`: it is the active
/// pane and the operator drilled into it (a breadcrumb, or fullscreen on it).
pub open spec fn shows_esc(focus: FocusState, pane: PaneId) -> bool {
    focus.active == pane && (focus.fullscreen == Some(pane) || focus.stack@.len() > 0)
}

/// The title of `pane` under `focus`.
pub open spec fn pane_title(focus: FocusState, pane: PaneId) -> Seq<char> {
    if shows_esc(focus, pane) {
        " "@ + pane_label(pane) + " "@ + esc_affordance()
    } else {
        " "@ + pane_label(pane) + " "@
    }
}

/// Is `pane` the active focus target?
pub fn is_active(focus: &FocusState, pane: PaneId) -> (r: bool)
    ensures
        r == (focus.active == pane),
{
    focus.active == pane
}

/// Should the pane show a back/`Esc` affordance? True when the operator has
/// drilled into this pane (stack non-empty or fullscreen on this pane).
pub fn should_show_esc(focus: &FocusState, pane: PaneId) -> (r: bool)
    ensures
        r == shows_esc(*focus, pane),
{
    let full_here = match focus.fullscreen {
        Some(p) => p == pane,
        None => false,
    };
    focus.active == pane && (full_here || focus.stack.len() != 0)
}

/// The `Esc` affordance label (empty when the pane shows no back hint).
pub fn esc_label(focus: &FocusState, pane: PaneId) -> (r: &'static str)
    ensures
        r@ == (if shows_esc(*focus, pane) { esc_affordance() } else { Seq::<char>::empty() }),
{
    if should_show_esc(focus, pane) {
        " Esc ◂ back "
    } else {
        proof {
            reveal_strlit("");
        }
        ""
    }
}

/// Compose a pane title with its optional `Esc` affordance suffix.
pub fn title_with_esc(focus: &FocusState, pane: PaneId) -> (r: String)
    ensures
        r@ == pane_title(*focus, pane),
{
    let label = pane.label();
    let esc = esc_label(focus, pane);
    let mut title = " ".to_owned();
    title.append(label.as_str());
    title.append(" ");
    if should_show_esc(focus, pane) {
        title.append(esc);
    }
    title
}

} // verus!
