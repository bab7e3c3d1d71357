use vstd::prelude::*;

verus! {

/// The terminal outcome of one request, before it is written as an HTTP status.
#[derive(Debug, Clone, Copy, PartialEq, Eq, Structural)]
pub enum Outcome {
    /// The request was served.
    Served,
    /// No live session on a gated route.
    AuthRequired,
    /// The session store could not be used.
    StoreUnavailable,
    /// The admission queue was full.
    AdmissionRejected,
    /// The deadline passed while queued or while running.
    AdmissionTimedOut,
    /// The inbound body could not be read.
    BadUpstreamRequest,
    /// The upstream could not be reached or failed mid-call.
    UpstreamUnreachable,
}

/// The HTTP status each outcome is answered with.
pub open spec fn status_of(o: Outcome) -> u16 {
    match o {
        Outcome::Served => 200,
        Outcome::AuthRequired => 401,
        Outcome::StoreUnavailable => 500,
        Outcome::AdmissionRejected => 503,
        Outcome::AdmissionTimedOut => 408,
        Outcome::BadUpstreamRequest => 400,
        Outcome::UpstreamUnreachable => 502,
    }
}

impl Outcome {
    /// The HTTP status of this outcome.
    pub fn status(&self) -> (r: u16)
        ensures
            r == status_of(*self),
    {
        match self {
            Outcome::Served => 200,
            Outcome::AuthRequired => 401,
            Outcome::StoreUnavailable => 500,
            Outcome::AdmissionRejected => 503,
            Outcome::AdmissionTimedOut => 408,
            Outcome::BadUpstreamRequest => 400,
            Outcome::UpstreamUnreachable => 502,
        }
    }
}

} // verus!
