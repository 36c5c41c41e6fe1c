//! The restart policy around the render loop: a run that fails is restarted
//! from scratch until a number of failures in a row is reached.

use vstd::prelude::*;

verus! {

/// What to do after a run ended.
#[derive(Clone, Copy, Debug, PartialEq, Eq, Structural)]
pub enum Verdict {
    /// The run completed normally: stop.
    Stop,
    /// The run failed: report the error and start a fresh run.
    Restart,
    /// The run failed once too often: report the error and end the process
    /// with it.
    GiveUp,
}

/// The count of failed runs in a row, and the count at which to give up.
#[derive(Clone, Copy, Debug, PartialEq, Eq, Structural)]
pub struct SupervisorModel {
    pub failures: u32,
    pub max_failures: u32,
}

impl SupervisorModel {
    /// The count after a run ended, and what to do. A failure past the limit
    /// leaves the count at the limit.
    pub open spec fn on_run_end(self, failed: bool) -> (SupervisorModel, Verdict) {
        if !failed {
            (SupervisorModel { failures: 0, ..self }, Verdict::Stop)
        } else {
            let failures = if self.failures < self.max_failures {
                (self.failures + 1) as u32
            } else {
                self.failures
            };
            (
                SupervisorModel { failures, ..self },
                if failures >= self.max_failures {
                    Verdict::GiveUp
                } else {
                    Verdict::Restart
                },
            )
        }
    }
}

/// The supervisor after `count` failed runs in a row, starting from `start`.
pub open spec fn after_failures(start: SupervisorModel, count: nat) -> SupervisorModel
    decreases count,
{
    if count == 0 {
        start
    } else {
        after_failures(start, (count - 1) as nat).on_run_end(true).0
    }
}

/// Counts failed runs of the render loop.
pub struct Supervisor {
    failures: u32,
    max_failures: u32,
}

impl View for Supervisor {
    type V = SupervisorModel;

    closed spec fn view(&self) -> SupervisorModel {
        SupervisorModel { failures: self.failures, max_failures: self.max_failures }
    }
}

impl Supervisor {
    /// No failures yet; gives up at the `max_failures`-th failure in a row.
    pub fn new(max_failures: u32) -> (r: Supervisor)
        ensures
            r@ == (SupervisorModel { failures: 0, max_failures }),
    {
        Supervisor { failures: 0, max_failures }
    }

    /// The number of failed runs in a row so far.
    pub fn failures(&self) -> (r: u32)
        ensures
            r == self@.failures,
    {
        self.failures
    }

    /// Records how a run ended and says what to do next.
    pub fn on_run_end(&mut self, failed: bool) -> (r: Verdict)
        ensures
            (final(self)@, r) == old(self)@.on_run_end(failed),
    {
        if !failed {
            self.failures = 0;
            Verdict::Stop
        } else {
            if self.failures < self.max_failures {
                self.failures = self.failures + 1;
            }
            if self.failures >= self.max_failures {
                Verdict::GiveUp
            } else {
                Verdict::Restart
            }
        }
    }
}

/// From no failures, each of the first `max_failures - 1` failed runs in a
/// row is restarted and the `max_failures`-th ends the process; a run that
/// completes sets the count back to zero.
pub proof fn lemma_gives_up_at_limit(max_failures: u32, count: nat)
    requires
        0 < count <= max_failures,
    ensures
        ({
            let start = SupervisorModel { failures: 0, max_failures };
            let before = after_failures(start, (count - 1) as nat);
            &&& before.failures == count - 1
            &&& before.max_failures == max_failures
            &&& before.on_run_end(true).1 == if count == max_failures {
                Verdict::GiveUp
            } else {
                Verdict::Restart
            }
            &&& before.on_run_end(false).0.failures == 0
        }),
    decreases count,
{
    if count > 1 {
        lemma_gives_up_at_limit(max_failures, (count - 1) as nat);
    }
}

} // verus!
