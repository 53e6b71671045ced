//! Agents lens view decisions: the "New Session" launch banner.

use vstd::prelude::*;

use crate::app::{launch_status_label, SessionLaunch};

verus! {

/// Banner text of a launch: its lifecycle word, then the run id once the
/// control plane has answered.
pub open spec fn launch_banner(launch: SessionLaunch) -> Seq<char> {
    match launch.run_id {
        Some(run_id) => " · New session: "@ + launch_status_label(launch.phase) + " "@ + run_id@,
        None => " · New session: "@ + launch_status_label(launch.phase),
    }
}

/// Human-readable banner for a "New Session" launch.
pub fn session_launch_label(launch: &SessionLaunch) -> (r: String)
    ensures
        r@ == launch_banner(*launch),
{
    let mut label = " · New session: ".to_owned();
    label.append(launch.status_label());
    match &launch.run_id {
        Some(run_id) => {
            label.append(" ");
            label.append(run_id.as_str());
        },
        None => {},
    }
    label
}

} // verus!
