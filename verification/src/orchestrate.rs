use vstd::prelude::*;

use crate::errors::ImgError;

verus! {

/// The phases of one orchestrated request, in order. Any component failure
/// moves straight to `Failed` with its error kind, which ends the process.
#[derive(Clone, Copy, Debug, PartialEq, Eq, Structural)]
pub enum Phase {
    Idle,
    Requesting,
    Decoding,
    Materializing,
    Done,
    Failed(ImgError),
}

/// What the pipeline reports back to the orchestrator after each step.
#[derive(Clone, Copy, Debug, PartialEq, Eq, Structural)]
pub enum PhaseEvent {
    /// The request was built and dispatched; the indicator is running.
    Dispatched,
    /// The transport returned a body.
    ResponseReceived,
    /// The body was decoded into payloads; the indicator has stopped.
    PayloadsDecoded,
    /// Every payload was written and announced.
    FilesWritten,
    /// A component failed with this error kind.
    StepFailed(ImgError),
}

/// The successor of a phase for an event.
pub open spec fn phase_after(p: Phase, ev: PhaseEvent) -> Phase {
    match ev {
        PhaseEvent::StepFailed(e) => Phase::Failed(e),
        PhaseEvent::Dispatched => if p is Idle {
            Phase::Requesting
        } else {
            p
        },
        PhaseEvent::ResponseReceived => if p is Requesting {
            Phase::Decoding
        } else {
            p
        },
        PhaseEvent::PayloadsDecoded => if p is Decoding {
            Phase::Materializing
        } else {
            p
        },
        PhaseEvent::FilesWritten => if p is Materializing {
            Phase::Done
        } else {
            p
        },
    }
}

/// Advances the orchestrator's state machine by one event: the phases run
/// `Idle -> Requesting -> Decoding -> Materializing -> Done`, any failure
/// goes straight to `Failed`, and an out-of-order event changes nothing.
pub fn advance_phase(p: &Phase, ev: &PhaseEvent) -> (r: Phase)
    ensures
        r == phase_after(*p, *ev),
{
    match ev {
        PhaseEvent::StepFailed(e) => Phase::Failed(*e),
        PhaseEvent::Dispatched => if *p == Phase::Idle {
            Phase::Requesting
        } else {
            *p
        },
        PhaseEvent::ResponseReceived => if *p == Phase::Requesting {
            Phase::Decoding
        } else {
            *p
        },
        PhaseEvent::PayloadsDecoded => if *p == Phase::Decoding {
            Phase::Materializing
        } else {
            *p
        },
        PhaseEvent::FilesWritten => if *p == Phase::Materializing {
            Phase::Done
        } else {
            *p
        },
    }
}

} // verus!
