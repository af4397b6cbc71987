//! Why a trajectory stopped, and the position test made before each step.

use vstd::prelude::*;

verus! {

/// Reason a geodesic integration stopped.
#[derive(Clone, Copy, Debug, PartialEq, Eq, Structural)]
pub enum TerminationReason {
    /// The ray fell within the event horizon.
    Horizon,
    /// The ray escaped beyond the escape radius.
    Escape,
    /// The step budget ran out.
    MaxSteps,
    /// The ray hit the accretion disk plane; reserved for a disk hook.
    DiskCrossing,
}

/// What the position test says of a state: the horizon test wins over the
/// escape test, and a state that passes both goes on.
pub open spec fn position_verdict(inside_horizon: bool, beyond_escape: bool) -> Option<
    TerminationReason,
> {
    if inside_horizon {
        Some(TerminationReason::Horizon)
    } else if beyond_escape {
        Some(TerminationReason::Escape)
    } else {
        Option::None
    }
}

/// Classifies a state from its two radial tests: `inside_horizon` is
/// `r < 1.001 * r_+`, `beyond_escape` is `r > escape_radius`.
pub fn check_termination(inside_horizon: bool, beyond_escape: bool) -> (r: Option<
    TerminationReason,
>)
    ensures
        r == position_verdict(inside_horizon, beyond_escape),
{
    if inside_horizon {
        Some(TerminationReason::Horizon)
    } else if beyond_escape {
        Some(TerminationReason::Escape)
    } else {
        Option::None
    }
}

} // verus!
