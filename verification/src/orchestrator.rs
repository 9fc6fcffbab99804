//! The fail-fast fan-in over the driver loops. All loops run until the
//! first of them terminates — success or failure — and that first outcome
//! is the whole process's result; loops still live cannot mask it.

use vstd::prelude::*;
use crate::types::ChallengerError;

verus! {

/// The three long-lived driver loops the challenger runs.
#[derive(Clone, Copy, Debug, PartialEq, Eq, Structural)]
pub enum DriverKind {
    TxDispatch,
    DisputeFactory,
    OutputAttestation,
}

/// How a driver loop ended. A loop must never report `Completed` while
/// logically still live, so any observed outcome ends the process.
#[derive(Clone, Copy, Debug, PartialEq, Eq, Structural)]
pub enum DriverOutcome {
    /// The loop returned without an error.
    Completed,
    /// The loop died of a non-recoverable condition.
    Failed(ChallengerError),
}

/// The orchestrator's join state: how many loops are still live, and the
/// first terminal outcome observed, if any.
#[derive(Clone, Copy, Debug, PartialEq, Eq)]
pub struct Orchestrator {
    pub live_drivers: u8,
    pub outcome: Option<(DriverKind, DriverOutcome)>,
}

/// The join state after observing one loop's exit: one fewer live loop, and
/// the first observed outcome sticks.
pub open spec fn observed(
    pre: Orchestrator,
    driver: DriverKind,
    outcome: DriverOutcome,
) -> Orchestrator {
    Orchestrator {
        live_drivers: (pre.live_drivers - 1) as u8,
        outcome: if pre.outcome is None {
            Some((driver, outcome))
        } else {
            pre.outcome
        },
    }
}

impl Orchestrator {
    /// The join over a freshly spawned driver stack.
    pub fn new(drivers: u8) -> (r: Orchestrator)
        ensures
            r.live_drivers == drivers,
            r.outcome is None,
    {
        Orchestrator { live_drivers: drivers, outcome: None }
    }

    /// Whether the join has resolved and the process must exit now.
    pub fn must_exit(&self) -> (r: bool)
        ensures
            r == (self.outcome is Some),
    {
        self.outcome.is_some()
    }

    /// Whether the result the process exits with is an error.
    pub fn exit_is_error(&self) -> (r: bool)
        ensures
            r == (self.outcome matches Some((_, DriverOutcome::Failed(_)))),
    {
        match self.outcome {
            Some((_, DriverOutcome::Failed(_))) => true,
            _ => false,
        }
    }

    /// Observe one driver loop's exit. The first exit resolves the join
    /// with that loop's outcome; later exits change nothing but the count.
    pub fn on_driver_exit(&mut self, driver: DriverKind, outcome: DriverOutcome)
        requires
            old(self).live_drivers > 0,
        ensures
            *final(self) == observed(*old(self), driver, outcome),
    {
        self.live_drivers = self.live_drivers - 1;
        if self.outcome.is_none() {
            self.outcome = Some((driver, outcome));
        }
    }
}

/// Law: the instant the first loop exits, the join's result is that loop's
/// outcome, however many loops are still live; and nothing a later exit
/// reports can change it.
pub proof fn lemma_fail_fast(pre: Orchestrator, driver: DriverKind, outcome: DriverOutcome)
    requires
        pre.outcome is None,
        pre.live_drivers > 0,
    ensures
        observed(pre, driver, outcome).outcome == Some((driver, outcome)),
        forall|d2: DriverKind, o2: DriverOutcome|
            (#[trigger] observed(observed(pre, driver, outcome), d2, o2)).outcome == Some(
                (driver, outcome),
            ),
{
}

} // verus!
