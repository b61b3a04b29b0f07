//! The periodic driver: a non-overlapping fixed-interval scheduler.
//!
//! Two states: idle between ticks, or one cycle in flight.  A tick
//! starts a cycle only from idle, so cycles never overlap and at most
//! one batch write is ever in flight.  A finished cycle returns the
//! driver to idle whether it succeeded or failed; an error is reported,
//! never fatal to the process.

use vstd::prelude::*;
use crate::errors::IndexError;

verus! {

/// Where the driver stands between events.
#[derive(Clone, Copy, Debug, PartialEq, Eq, Structural)]
pub enum DriverState {
    /// Waiting for the next tick.
    Idle,
    /// One indexing cycle is in flight.
    Indexing,
}

/// What the outside loop observed.
#[derive(Clone, Copy, Debug, PartialEq, Eq, Structural)]
pub enum DriverEvent {
    /// The interval timer fired.
    Tick,
    /// The in-flight cycle finished successfully.
    CycleSucceeded,
    /// The in-flight cycle aborted with an error.
    CycleFailed(IndexError),
}

/// What the outside loop must do next.
#[derive(Clone, Copy, Debug, PartialEq, Eq, Structural)]
pub enum DriverAction {
    /// Begin one indexing cycle.
    StartCycle,
    /// Nothing to do until the next event.
    Wait,
    /// Report the cycle's error and keep going.
    Report(IndexError),
}

/// One transition of the driver.
///
/// A cycle starts only on a tick received while idle; a tick during an
/// in-flight cycle is ignored, so cycles are strictly sequential.  A
/// finished cycle always returns the driver to idle: a failure is
/// reported and the next tick retries, it never stops the loop.
pub fn driver_step(state: DriverState, event: DriverEvent) -> (r: (DriverState, DriverAction))
    ensures
        state == DriverState::Idle && event == DriverEvent::Tick ==> r == (
            DriverState::Indexing,
            DriverAction::StartCycle,
        ),
        state == DriverState::Indexing && event == DriverEvent::Tick ==> r == (
            DriverState::Indexing,
            DriverAction::Wait,
        ),
        event == DriverEvent::CycleSucceeded ==> r == (DriverState::Idle, DriverAction::Wait),
        forall|e: IndexError|
            event == DriverEvent::CycleFailed(e) ==> r == (
                DriverState::Idle,
                DriverAction::Report(e),
            ),
        r.1 == DriverAction::StartCycle ==> state == DriverState::Idle && event
            == DriverEvent::Tick,
{
    match event {
        DriverEvent::Tick => {
            match state {
                DriverState::Idle => (DriverState::Indexing, DriverAction::StartCycle),
                DriverState::Indexing => (DriverState::Indexing, DriverAction::Wait),
            }
        },
        DriverEvent::CycleSucceeded => (DriverState::Idle, DriverAction::Wait),
        DriverEvent::CycleFailed(e) => (DriverState::Idle, DriverAction::Report(e)),
    }
}

} // verus!
