//! Failure kinds of the pipeline and their translation into
//! client-visible statuses.
//!
//! Every stage past the resolver fails closed: its failure is surfaced to
//! the client as a status chosen by kind, never silently dropped. The
//! resolver alone fails open and so never produces a value of this type.
//! No failure is retried at this layer.

use vstd::prelude::*;

verus! {

/// The status code for a failure reaching upstream.
pub const BAD_GATEWAY: u16 = 502;

/// The status code for an elapsed per-request timeout.
pub const REQUEST_TIMEOUT: u16 = 408;

/// The status code for every failure internal to the pipeline.
pub const INTERNAL_SERVER_ERROR: u16 = 500;

/// A terminal failure of one pipeline stage.
pub enum Error {
    /// The gateway could not reach or complete the exchange with the
    /// upstream origin.
    TransportFailure,
    /// A rewritten target could not be reassembled. The resolver recovers
    /// from this silently; a stage that cannot fails closed with it.
    MalformedTarget,
    /// The minter could not read or decode the upstream response body.
    BodyReadFailure,
    /// An optional timeout stage tripped.
    ElapsedTimeout,
    /// Any other failure, carrying a diagnostic message.
    Unclassified(String),
}

/// The client-visible status for each failure kind: a transport failure
/// is a bad gateway, an elapsed timeout a request timeout, and everything
/// else an internal server error.
pub open spec fn spec_status_for(e: Error) -> u16 {
    match e {
        Error::TransportFailure => BAD_GATEWAY,
        Error::ElapsedTimeout => REQUEST_TIMEOUT,
        Error::MalformedTarget => INTERNAL_SERVER_ERROR,
        Error::BodyReadFailure => INTERNAL_SERVER_ERROR,
        Error::Unclassified(_) => INTERNAL_SERVER_ERROR,
    }
}

/// The diagnostic body sent with a translated failure.
pub open spec fn spec_diagnostic_for(e: Error) -> Seq<char> {
    match e {
        Error::TransportFailure => "upstream unreachable"@,
        Error::ElapsedTimeout => "upstream timed out"@,
        Error::MalformedTarget => "malformed rewritten target"@,
        Error::BodyReadFailure => "upstream body could not be read"@,
        Error::Unclassified(msg) => "Unhandled internal error: "@ + msg@,
    }
}

impl Error {
    /// Translate this failure into the status code the client sees.
    pub fn status(&self) -> (status: u16)
        ensures
            status == spec_status_for(*self),
    {
        match self {
            Error::TransportFailure => BAD_GATEWAY,
            Error::ElapsedTimeout => REQUEST_TIMEOUT,
            Error::MalformedTarget => INTERNAL_SERVER_ERROR,
            Error::BodyReadFailure => INTERNAL_SERVER_ERROR,
            Error::Unclassified(_) => INTERNAL_SERVER_ERROR,
        }
    }

    /// The diagnostic message sent along with the status.
    pub fn diagnostic(&self) -> (msg: String)
        ensures
            msg@ == spec_diagnostic_for(*self),
    {
        match self {
            Error::TransportFailure => String::from_str("upstream unreachable"),
            Error::ElapsedTimeout => String::from_str("upstream timed out"),
            Error::MalformedTarget => String::from_str("malformed rewritten target"),
            Error::BodyReadFailure => String::from_str("upstream body could not be read"),
            Error::Unclassified(msg) => {
                let mut full = String::from_str("Unhandled internal error: ");
                full.append(msg.as_str());
                full
            },
        }
    }

    /// Translate this failure into the client-visible response: its
    /// status code by kind, and the diagnostic message as the body.
    pub fn translate(&self) -> (response: (u16, String))
        ensures
            response.0 == spec_status_for(*self),
            response.1@ == spec_diagnostic_for(*self),
    {
        (self.status(), self.diagnostic())
    }
}

} // verus!
