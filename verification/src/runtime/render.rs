//! Frame composition decisions: the header tab labels and the freshness chip.

use vstd::prelude::*;

use crate::app::{tab_at, tab_label, ActiveTab, TAB_COUNT};
use crate::theme::badges::FreshnessBadge;

verus! {

/// Product brand shown in the header.
pub const BRAND: &'static str = "jeryu Flight Deck";

/// Header tab labels in strip order.
pub fn tab_labels() -> (r: Vec<&'static str>)
    ensures
        r@.len() == TAB_COUNT,
        forall|i: int| 0 <= i < TAB_COUNT ==> (#[trigger] r@[i])@ == tab_label(tab_at(i)),
{
    let mut labels: Vec<&'static str> = Vec::new();
    let mut i: usize = 0;
    while i < TAB_COUNT
        invariant
            i <= TAB_COUNT,
            labels@.len() == i,
            forall|j: int| 0 <= j < i ==> (#[trigger] labels@[j])@ == tab_label(tab_at(j)),
        decreases TAB_COUNT - i,
    {
        match ActiveTab::from_index(i) {
            Some(tab) => labels.push(tab.label()),
            None => {},
        }
        i = i + 1;
    }
    labels
}

/// The header freshness chip of the read model's overall watermark: expired
/// when the snapshot is outdated, fresh otherwise.
pub fn freshness_badge(overall_outdated: bool) -> (r: FreshnessBadge)
    ensures
        r == (if overall_outdated {
            FreshnessBadge::Expired
        } else {
            FreshnessBadge::Fresh
        }),
{
    if overall_outdated {
        FreshnessBadge::Expired
    } else {
        FreshnessBadge::Fresh
    }
}

} // verus!
