//! The per-request state machine of the middleware engine.
//!
//! Each inbound request moves through the pipeline's phases in one fixed
//! order: received, forwarded upstream after the resolver has run,
//! response received, and sent once the minter has rewritten the body.
//! Any stage may instead signal a terminal failure. The two terminal
//! phases absorb every further event: no retries are performed at this
//! layer. The embedding program performs the actions; this machine
//! decides, for each phase and event, what the next phase is.

use vstd::prelude::*;

verus! {

/// Where a request stands in the pipeline.
#[derive(Clone, Copy, Debug, PartialEq, Eq, Structural)]
pub enum Phase {
    /// The request arrived and has not been forwarded yet.
    Received,
    /// The resolver ran and the request went to the gateway.
    Forwarded,
    /// The gateway's response arrived.
    ResponseReceived,
    /// The minter ran and the response went to the client.
    Sent,
    /// A stage signalled a terminal failure.
    Errored,
}

/// What the embedding program reports back to the machine.
#[derive(Clone, Copy, Debug, PartialEq, Eq, Structural)]
pub enum PhaseEvent {
    /// The resolver applied and the request was handed to the gateway.
    Forward,
    /// The gateway returned a response.
    Respond,
    /// The minter applied and the response was handed to the client.
    Deliver,
    /// A stage signalled a terminal failure.
    Fail,
}

/// A phase no event leads out of.
pub open spec fn spec_is_terminal(phase: Phase) -> bool {
    phase is Sent || phase is Errored
}

/// The one legal move for each phase and event: the pipeline's order is
/// preserved, any failure in a live phase ends the request, and an event
/// that does not belong to the current phase changes nothing.
pub open spec fn spec_advance(phase: Phase, event: PhaseEvent) -> Phase {
    if spec_is_terminal(phase) {
        phase
    } else {
        match (phase, event) {
            (Phase::Received, PhaseEvent::Forward) => Phase::Forwarded,
            (Phase::Forwarded, PhaseEvent::Respond) => Phase::ResponseReceived,
            (Phase::ResponseReceived, PhaseEvent::Deliver) => Phase::Sent,
            (_, PhaseEvent::Fail) => Phase::Errored,
            _ => phase,
        }
    }
}

impl Phase {
    /// Whether the request is finished, by success or by failure.
    pub fn is_terminal(&self) -> (terminal: bool)
        ensures
            terminal == spec_is_terminal(*self),
    {
        match self {
            Phase::Sent => true,
            Phase::Errored => true,
            _ => false,
        }
    }

    /// Move the request to its next phase on `event`.
    pub fn advance(self, event: PhaseEvent) -> (next: Self)
        ensures
            next == spec_advance(self, event),
    {
        if self.is_terminal() {
            self
        } else {
            match (self, event) {
                (Phase::Received, PhaseEvent::Forward) => Phase::Forwarded,
                (Phase::Forwarded, PhaseEvent::Respond) => Phase::ResponseReceived,
                (Phase::ResponseReceived, PhaseEvent::Deliver) => Phase::Sent,
                (_, PhaseEvent::Fail) => Phase::Errored,
                _ => self,
            }
        }
    }
}

/// Terminal phases are truly terminal: once a request is sent or errored,
/// no event moves it again.
pub proof fn lemma_terminal_absorbs(phase: Phase, event: PhaseEvent)
    requires
        spec_is_terminal(phase),
    ensures
        spec_advance(phase, event) == phase,
{
}

} // verus!
