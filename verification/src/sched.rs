//! The poll scheduler's decision logic: a state machine from phase and event
//! to the next phase, a wait, and the next operation. The loop that performs
//! the operations — discovery, polling, sleeping — runs outside the library
//! and feeds each outcome back in as an event.

use crate::error::Error;
use vstd::prelude::*;

verus! {

/// The fixed interval between two poll cycles, in time units.
pub const POLL_INTERVAL_UNITS: u64 = 10;

/// The time budget of one cycle; a cycle that exceeds it counts as timed out.
pub const CYCLE_TIMEOUT_UNITS: u64 = 10;

/// The wait before rediscovery, after a discovery or cycle failure.
pub const RETRY_WAIT_UNITS: u64 = 60;

/// Where the scheduler stands: without a bridge, or connected to one.
#[derive(Clone, Copy, PartialEq, Eq, Structural, Debug)]
pub enum SchedPhase {
    Disconnected,
    Connected,
}

/// What the operation the scheduler requested came back with.
#[derive(Clone, Copy, PartialEq, Eq, Structural, Debug)]
pub enum SchedEvent {
    /// Discovery found a bridge and a handle was acquired.
    Acquired,
    /// Discovery failed, or found no bridge.
    DiscoveryFailed,
    /// The cycle completed within its budget.
    CycleCompleted,
    /// The cycle failed with the given error; a cycle that exceeded its
    /// budget is reported here as `Error::Timeout`.
    CycleFailed(Error),
}

/// The operation the scheduler requests next.
#[derive(Clone, Copy, PartialEq, Eq, Structural, Debug)]
pub enum SchedOp {
    Discover,
    RunCycle,
}

/// One scheduling decision: the next phase, how many time units to wait, and
/// the operation to perform after the wait.
#[derive(Clone, Copy, PartialEq, Eq, Structural, Debug)]
pub struct SchedStep {
    pub next: SchedPhase,
    pub wait_units: u64,
    pub op: SchedOp,
}

/// Which events can arrive in a phase: exactly the outcomes of the operation
/// the scheduler requested in that phase.
pub open spec fn event_fits_phase(phase: SchedPhase, event: SchedEvent) -> bool {
    match phase {
        SchedPhase::Disconnected => event == SchedEvent::Acquired || event
            == SchedEvent::DiscoveryFailed,
        SchedPhase::Connected => event == SchedEvent::CycleCompleted || (event matches
        SchedEvent::CycleFailed(_)),
    }
}

/// The scheduler's transition function. Discovery failures are retried
/// forever after a fixed wait. A completed cycle is followed by the next
/// poll after the poll interval. A failed or timed-out cycle poisons the
/// connection: after the retry wait, discovery starts over. The one
/// exception is a persistence failure, which is best-effort and aborts
/// nothing: polling continues as if the cycle had completed.
pub open spec fn spec_sched_step(phase: SchedPhase, event: SchedEvent) -> SchedStep {
    match (phase, event) {
        (SchedPhase::Disconnected, SchedEvent::Acquired) => SchedStep {
            next: SchedPhase::Connected,
            wait_units: 0,
            op: SchedOp::RunCycle,
        },
        (SchedPhase::Disconnected, _) => SchedStep {
            next: SchedPhase::Disconnected,
            wait_units: RETRY_WAIT_UNITS,
            op: SchedOp::Discover,
        },
        (SchedPhase::Connected, SchedEvent::CycleCompleted) => SchedStep {
            next: SchedPhase::Connected,
            wait_units: POLL_INTERVAL_UNITS,
            op: SchedOp::RunCycle,
        },
        (SchedPhase::Connected, SchedEvent::CycleFailed(Error::Persistence)) => SchedStep {
            next: SchedPhase::Connected,
            wait_units: POLL_INTERVAL_UNITS,
            op: SchedOp::RunCycle,
        },
        (SchedPhase::Connected, _) => SchedStep {
            next: SchedPhase::Disconnected,
            wait_units: RETRY_WAIT_UNITS,
            op: SchedOp::Discover,
        },
    }
}

/// Decides the scheduler's next move from its phase and the event the
/// requested operation came back with.
pub fn sched_step(phase: SchedPhase, event: SchedEvent) -> (r: SchedStep)
    requires
        event_fits_phase(phase, event),
    ensures
        r == spec_sched_step(phase, event),
{
    match (phase, event) {
        (SchedPhase::Disconnected, SchedEvent::Acquired) => SchedStep {
            next: SchedPhase::Connected,
            wait_units: 0,
            op: SchedOp::RunCycle,
        },
        (SchedPhase::Disconnected, _) => SchedStep {
            next: SchedPhase::Disconnected,
            wait_units: RETRY_WAIT_UNITS,
            op: SchedOp::Discover,
        },
        (SchedPhase::Connected, SchedEvent::CycleCompleted) => SchedStep {
            next: SchedPhase::Connected,
            wait_units: POLL_INTERVAL_UNITS,
            op: SchedOp::RunCycle,
        },
        (SchedPhase::Connected, SchedEvent::CycleFailed(Error::Persistence)) => SchedStep {
            next: SchedPhase::Connected,
            wait_units: POLL_INTERVAL_UNITS,
            op: SchedOp::RunCycle,
        },
        (SchedPhase::Connected, _) => SchedStep {
            next: SchedPhase::Disconnected,
            wait_units: RETRY_WAIT_UNITS,
            op: SchedOp::Discover,
        },
    }
}

/// A cycle that exceeds its time budget is treated identically to a bridge
/// failure: the same wait, the same forced rediscovery.
pub proof fn lemma_timeout_like_bridge_error()
    ensures
        spec_sched_step(SchedPhase::Connected, SchedEvent::CycleFailed(Error::Timeout))
            == spec_sched_step(SchedPhase::Connected, SchedEvent::CycleFailed(Error::Bridge)),
{
}

} // verus!
