//! The run state machine of the trajectory driver.
//!
//! A trajectory is `Running` until a test made before a step, on the
//! incoming state, stops it (`Horizon`, `Escape`) or its step budget runs out
//! (`MaxSteps`); once `Terminated` it never runs again. The driver also
//! projects the state onto the null surface after the first step and after
//! every `renormalize_interval`-th step from there.

use vstd::prelude::*;
use crate::termination::{position_verdict, TerminationReason};

verus! {

/// Where a trajectory stands: still stepping, or stopped for good.
#[derive(Clone, Copy, Debug, PartialEq, Eq, Structural)]
pub enum RunPhase {
    Running,
    Terminated(TerminationReason),
}

/// Whether the projection onto `H = 0` follows the step taken when
/// `completed` steps were already done.
pub open spec fn renormalize_due(completed: nat, interval: nat) -> bool
    recommends
        interval > 0,
{
    completed % interval == 0
}

/// The bookkeeping of one trajectory: how many steps were taken out of the
/// budget, how often the state is projected back onto the null surface, and
/// whether the run is over.
#[derive(Clone, Copy, Debug, PartialEq, Eq, Structural)]
pub struct RunControl {
    pub steps: usize,
    pub max_steps: usize,
    pub renormalize_interval: usize,
    pub phase: RunPhase,
}

impl RunControl {
    pub open spec fn wf(&self) -> bool {
        &&& self.renormalize_interval > 0
        &&& self.steps <= self.max_steps
    }

    /// The phase after the test made before a step. The incoming state is
    /// tested, so a trajectory that stops ends on a state that passed every
    /// earlier test; an exhausted budget ends it whatever its position.
    pub open spec fn phase_after_check(
        &self,
        inside_horizon: bool,
        beyond_escape: bool,
    ) -> RunPhase {
        match self.phase {
            RunPhase::Terminated(reason) => RunPhase::Terminated(reason),
            RunPhase::Running => if self.steps >= self.max_steps {
                RunPhase::Terminated(TerminationReason::MaxSteps)
            } else {
                match position_verdict(inside_horizon, beyond_escape) {
                    Some(reason) => RunPhase::Terminated(reason),
                    Option::None => RunPhase::Running,
                }
            },
        }
    }

    /// Whether a step may be taken now.
    pub open spec fn may_step(&self) -> bool {
        self.phase == RunPhase::Running && self.steps < self.max_steps
    }

    /// A fresh run with a budget of `max_steps` steps that projects onto
    /// the null surface every `renormalize_interval` steps.
    pub fn new(max_steps: usize, renormalize_interval: usize) -> (r: Self)
        requires
            renormalize_interval > 0,
        ensures
            r.wf(),
            r.steps == 0,
            r.max_steps == max_steps,
            r.renormalize_interval == renormalize_interval,
            r.phase == RunPhase::Running,
    {
        RunControl { steps: 0, max_steps, renormalize_interval, phase: RunPhase::Running }
    }

    /// Tests the incoming state before a step: `inside_horizon` is
    /// `r < 1.001 * r_+`, `beyond_escape` is `r > escape_radius`. Returns the
    /// new phase; a terminated run stays as it was.
    pub fn before_step(&mut self, inside_horizon: bool, beyond_escape: bool) -> (r: RunPhase)
        requires
            old(self).wf(),
        ensures
            final(self).wf(),
            r == final(self).phase,
            final(self).phase == old(self).phase_after_check(inside_horizon, beyond_escape),
            final(self).steps == old(self).steps,
            final(self).max_steps == old(self).max_steps,
            final(self).renormalize_interval == old(self).renormalize_interval,
    {
        if let RunPhase::Running = self.phase {
            if self.steps >= self.max_steps {
                self.phase = RunPhase::Terminated(TerminationReason::MaxSteps);
            } else if inside_horizon {
                self.phase = RunPhase::Terminated(TerminationReason::Horizon);
            } else if beyond_escape {
                self.phase = RunPhase::Terminated(TerminationReason::Escape);
            }
        }
        self.phase
    }

    /// Records a step that was taken and says whether the state is to be
    /// projected onto the null surface now. Where no step may be taken, the
    /// run is left as it was and no projection is asked for.
    pub fn after_step(&mut self) -> (renormalize: bool)
        requires
            old(self).wf(),
        ensures
            final(self).wf(),
            final(self).max_steps == old(self).max_steps,
            final(self).renormalize_interval == old(self).renormalize_interval,
            final(self).phase == old(self).phase,
            old(self).may_step() ==> {
                &&& final(self).steps == old(self).steps + 1
                &&& renormalize == renormalize_due(
                    old(self).steps as nat,
                    old(self).renormalize_interval as nat,
                )
            },
            !old(self).may_step() ==> final(self).steps == old(self).steps && !renormalize,
    {
        match self.phase {
            RunPhase::Running => {
                if self.steps < self.max_steps {
                    let due = self.steps % self.renormalize_interval == 0;
                    self.steps = self.steps + 1;
                    due
                } else {
                    false
                }
            },
            RunPhase::Terminated(_) => false,
        }
    }

    /// Whether the run is over.
    pub fn is_terminated(&self) -> (r: bool)
        ensures
            r == (self.phase != RunPhase::Running),
    {
        match self.phase {
            RunPhase::Running => false,
            RunPhase::Terminated(_) => true,
        }
    }
}

} // verus!
