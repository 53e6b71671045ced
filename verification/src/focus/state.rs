//! Focus state machine: the active pane, the drill-down breadcrumb stack and
//! the fullscreen pane.
//!
//! [`FocusState::for_tab`] and [`FocusState::set_tab`] focus the default pane of
//! the tab with an empty stack and no fullscreen; cycling keeps the focus inside
//! the tab's panes; `push`/`pop` and `escape` walk the breadcrumb.

use vstd::prelude::*;

use super::pane::{default_pane, tab_panes, PaneId};
use crate::app::ActiveTab;

verus! {

/// Focus state: the active pane, the breadcrumb (most recent last) and the
/// pane that occupies the whole content area, if any.
#[derive(Debug, Clone)]
pub struct FocusState {
    pub active: PaneId,
    pub stack: Vec<PaneId>,
    pub fullscreen: Option<PaneId>,
}

/// Mathematical model of a [`FocusState`].
pub struct FocusView {
    pub active: PaneId,
    pub stack: Seq<PaneId>,
    pub fullscreen: Option<PaneId>,
}

impl View for FocusState {
    type V = FocusView;

    open spec fn view(&self) -> FocusView {
        FocusView { active: self.active, stack: self.stack@, fullscreen: self.fullscreen }
    }
}

/// The first position of `p` in `s`, or 0 when `p` does not occur.
pub open spec fn first_index_of(s: Seq<PaneId>, p: PaneId) -> int {
    if exists|i: int| 0 <= i < s.len() && s[i] == p {
        choose|i: int|
            0 <= i < s.len() && s[i] == p && (forall|j: int| 0 <= j < i ==> s[j] != p)
    } else {
        0
    }
}

/// The focus state of a freshly entered tab.
pub open spec fn focus_for_tab(t: ActiveTab) -> FocusView {
    FocusView { active: default_pane(t), stack: Seq::empty(), fullscreen: None }
}

/// Whether the operator has drilled in (a breadcrumb or a fullscreen pane).
pub open spec fn focus_drilled(v: FocusView) -> bool {
    v.fullscreen is Some || v.stack.len() > 0
}

/// Cycle to the next pane of `t`, wrapping; an unknown active pane counts as
/// the first.
pub open spec fn focus_next_spec(v: FocusView, t: ActiveTab) -> FocusView {
    let panes = tab_panes(t);
    if panes.len() == 0 {
        v
    } else {
        FocusView {
            active: panes[(first_index_of(panes, v.active) + 1) % (panes.len() as int)],
            ..v
        }
    }
}

/// Cycle to the previous pane of `t`, wrapping; an unknown active pane counts
/// as the first.
pub open spec fn focus_prev_spec(v: FocusView, t: ActiveTab) -> FocusView {
    let panes = tab_panes(t);
    if panes.len() == 0 {
        v
    } else {
        FocusView {
            active: panes[(first_index_of(panes, v.active) + panes.len() - 1) % (
            panes.len() as int)],
            ..v
        }
    }
}

/// Push the active pane onto the breadcrumb.
pub open spec fn focus_push_spec(v: FocusView) -> FocusView {
    FocusView { stack: v.stack.push(v.active), ..v }
}

/// Pop the breadcrumb into the active pane; the flag says whether there was
/// anything to pop.
pub open spec fn focus_pop_spec(v: FocusView) -> (FocusView, bool) {
    if v.stack.len() > 0 {
        (FocusView { active: v.stack.last(), stack: v.stack.drop_last(), ..v }, true)
    } else {
        (v, false)
    }
}

/// Leave fullscreen (if any), then pop one breadcrumb frame.
pub open spec fn focus_escape_spec(v: FocusView) -> (FocusView, bool) {
    focus_pop_spec(FocusView { fullscreen: None, ..v })
}

impl FocusState {
    /// Focus the default pane of `tab`, with no breadcrumb and no fullscreen.
    pub fn for_tab(tab: ActiveTab) -> (r: FocusState)
        ensures
            r@ == focus_for_tab(tab),
    {
        FocusState { active: PaneId::default_for_tab(tab), stack: Vec::new(), fullscreen: None }
    }

    /// Switch to `tab`: focus its default pane, clear the breadcrumb and
    /// leave fullscreen.
    pub fn set_tab(&mut self, tab: ActiveTab)
        ensures
            final(self)@ == focus_for_tab(tab),
    {
        self.active = PaneId::default_for_tab(tab);
        self.stack.clear();
        self.fullscreen = None;
    }

    /// Whether the operator has drilled in.
    pub fn is_drilled(&self) -> (r: bool)
        ensures
            r == focus_drilled(self@),
    {
        self.fullscreen.is_some() || self.stack.len() != 0
    }

    /// Position of the active pane among `panes` (0 when it is not there).
    fn position_in(&self, panes: &[PaneId]) -> (r: usize)
        ensures
            r == first_index_of(panes@, self.active),
            panes@.len() > 0 ==> r < panes@.len(),
    {
        let n = panes.len();
        let mut i: usize = 0;
        while i < n
            invariant
                n == panes@.len(),
                i <= n,
                forall|j: int| 0 <= j < i ==> panes@[j] != self.active,
            decreases n - i,
        {
            if panes[i] == self.active {
                proof {
                    let s = panes@;
                    let p = self.active;
                    assert(exists|k: int| 0 <= k < s.len() && s[k] == p);
                    assert(0 <= i < s.len() && s[i as int] == p && (forall|j: int|
                        0 <= j < i ==> s[j] != p));
                    let c = first_index_of(s, p);
                    assert(0 <= c < s.len() && s[c] == p && (forall|j: int|
                        0 <= j < c ==> s[j] != p));
                    if c < i {
                    } else if c > i {
                        assert(s[i as int] != p);
                    }
                }
                return i;
            }
            i = i + 1;
        }
        proof {
            let s = panes@;
            assert(!(exists|k: int| 0 <= k < s.len() && s[k] == self.active));
        }
        0
    }

    /// Cycle focus to the next pane within `tab` (wraps).
    pub fn focus_next(&mut self, tab: ActiveTab)
        ensures
            final(self)@ == focus_next_spec(old(self)@, tab),
    {
        let panes = PaneId::panes_for_tab(tab);
        proof {
            super::pane::lemma_tab_panes_wellformed(tab);
        }
        let n = panes.len();
        if n == 0 {
            return;
        }
        let idx = self.position_in(panes);
        let j: usize = (idx + 1) % n;
        self.active = panes[j];
    }

    /// Cycle focus to the previous pane within `tab` (wraps).
    pub fn focus_prev(&mut self, tab: ActiveTab)
        ensures
            final(self)@ == focus_prev_spec(old(self)@, tab),
    {
        let panes = PaneId::panes_for_tab(tab);
        proof {
            super::pane::lemma_tab_panes_wellformed(tab);
        }
        let n = panes.len();
        if n == 0 {
            return;
        }
        let idx = self.position_in(panes);
        let j: usize = (idx + n - 1) % n;
        self.active = panes[j];
    }

    /// Remember the active pane on the breadcrumb.
    pub fn push(&mut self)
        ensures
            final(self)@ == focus_push_spec(old(self)@),
    {
        self.stack.push(self.active);
    }

    /// Return to the most recent breadcrumb pane; `false` when there is none.
    pub fn pop(&mut self) -> (r: bool)
        ensures
            (final(self)@, r) == focus_pop_spec(old(self)@),
    {
        match self.stack.pop() {
            Some(prev) => {
                self.active = prev;
                true
            },
            None => false,
        }
    }

    /// Enter fullscreen on the active pane.
    pub fn enter_fullscreen(&mut self)
        ensures
            final(self)@ == (FocusView { fullscreen: Some(old(self).active), ..old(self)@ }),
    {
        self.fullscreen = Some(self.active);
    }

    /// Leave fullscreen (if any) and pop one breadcrumb frame; the result says
    /// whether a frame was popped.
    pub fn escape(&mut self) -> (r: bool)
        ensures
            (final(self)@, r) == focus_escape_spec(old(self)@),
    {
        if self.fullscreen.take().is_some() {
            return self.pop();
        }
        self.pop()
    }
}

/// In a list without repetitions, the first position of the element at `k`
/// is `k`.
pub proof fn lemma_first_index_of_distinct(s: Seq<PaneId>, k: int)
    requires
        0 <= k < s.len(),
        forall|i: int, j: int| 0 <= i < s.len() && 0 <= j < s.len() && i != j ==> s[i] != s[j],
    ensures
        first_index_of(s, s[k]) == k,
{
    let p = s[k];
    assert(exists|i: int| 0 <= i < s.len() && s[i] == p);
    let c = first_index_of(s, p);
    assert(0 <= c < s.len() && s[c] == p);
}

/// Pushing the active pane and popping it again restores the focus state.
pub proof fn lemma_push_then_pop_restores(v: FocusView)
    ensures
        focus_pop_spec(focus_push_spec(v)).0 == v,
        focus_pop_spec(focus_push_spec(v)).1,
{
    assert(v.stack.push(v.active).drop_last() =~= v.stack);
}

/// Entering (or switching to) a tab leaves nothing drilled and focuses one of
/// that tab's own panes.
pub proof fn lemma_tab_entry_is_undrilled(t: ActiveTab)
    ensures
        !focus_drilled(focus_for_tab(t)),
        tab_panes(t).contains(focus_for_tab(t).active),
        super::pane::pane_tab(focus_for_tab(t).active) == t,
{
    super::pane::lemma_default_pane_belongs_to_its_tab(t);
}

/// Cycling focus never leaves the tab's panes and never touches the
/// breadcrumb or the fullscreen pane.
pub proof fn lemma_focus_cycle_stays_in_tab(v: FocusView, t: ActiveTab)
    ensures
        tab_panes(t).contains(focus_next_spec(v, t).active),
        tab_panes(t).contains(focus_prev_spec(v, t).active),
        focus_next_spec(v, t).stack == v.stack,
        focus_prev_spec(v, t).stack == v.stack,
        focus_next_spec(v, t).fullscreen == v.fullscreen,
        focus_prev_spec(v, t).fullscreen == v.fullscreen,
{
    super::pane::lemma_tab_panes_wellformed(t);
    let panes = tab_panes(t);
    let n = panes.len() as int;
    let c = first_index_of(panes, v.active);
    if exists|i: int| 0 <= i < panes.len() && panes[i] == v.active {
        assert(0 <= c < n);
    }
    let a = (c + 1) % n;
    let b = (c + n - 1) % n;
    assert(panes[a] == focus_next_spec(v, t).active);
    assert(panes[b] == focus_prev_spec(v, t).active);
}

/// Within a tab, cycling forward then backward (or backward then forward)
/// returns to the pane focused before.
pub proof fn lemma_focus_next_prev_inverse(v: FocusView, t: ActiveTab)
    requires
        tab_panes(t).contains(v.active),
    ensures
        focus_prev_spec(focus_next_spec(v, t), t) == v,
        focus_next_spec(focus_prev_spec(v, t), t) == v,
{
    super::pane::lemma_tab_panes_wellformed(t);
    let panes = tab_panes(t);
    let n = panes.len() as int;
    let k = choose|k: int| 0 <= k < panes.len() && panes[k] == v.active;
    lemma_first_index_of_distinct(panes, k);
    let a = (k + 1) % n;
    lemma_first_index_of_distinct(panes, a);
    assert((a + n - 1) % n == k) by {
        if k + 1 < n {
            vstd::arithmetic::div_mod::lemma_small_mod((k + 1) as nat, n as nat);
            vstd::arithmetic::div_mod::lemma_mod_add_multiples_vanish(k, n);
            vstd::arithmetic::div_mod::lemma_small_mod(k as nat, n as nat);
        } else {
            vstd::arithmetic::div_mod::lemma_mod_self_0(n);
            vstd::arithmetic::div_mod::lemma_small_mod((n - 1) as nat, n as nat);
        }
    }
    let b = (k + n - 1) % n;
    lemma_first_index_of_distinct(panes, b);
    assert((b + 1) % n == k) by {
        if k > 0 {
            vstd::arithmetic::div_mod::lemma_mod_add_multiples_vanish(k - 1, n);
            vstd::arithmetic::div_mod::lemma_small_mod((k - 1) as nat, n as nat);
            vstd::arithmetic::div_mod::lemma_small_mod(k as nat, n as nat);
        } else {
            vstd::arithmetic::div_mod::lemma_small_mod((n - 1) as nat, n as nat);
            vstd::arithmetic::div_mod::lemma_mod_self_0(n);
        }
    }
}

/// Escape always leaves fullscreen; it pops a breadcrumb frame exactly when
/// there is one, focusing the most recent breadcrumb pane.
pub proof fn lemma_escape_unwinds(v: FocusView)
    ensures
        focus_escape_spec(v).0.fullscreen is None,
        focus_escape_spec(v).1 == (v.stack.len() > 0),
        v.stack.len() > 0 ==> focus_escape_spec(v).0.active == v.stack.last()
            && focus_escape_spec(v).0.stack == v.stack.drop_last(),
        v.stack.len() == 0 ==> focus_escape_spec(v).0.active == v.active,
        !focus_drilled(focus_escape_spec(v).0) <== v.stack.len() <= 1,
{
}

} // verus!
