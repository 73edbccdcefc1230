//! What can go wrong between a producer and a service.

use vstd::prelude::*;

verus! {

/// The two ways in which talking to a service can fail.
#[derive(Debug, Clone, Copy, PartialEq, Eq, Structural)]
pub enum Error {
    /// The mailbox no longer takes envelopes: its receiving side was closed
    /// or is gone.
    ServiceStoped,
    /// The reply channel of a call was closed before a value came through it.
    ServicePaused,
}

impl Error {
    /// The sentence that describes the error.
    pub open spec fn text(self) -> Seq<char> {
        match self {
            Error::ServiceStoped => "Service already stoped"@,
            Error::ServicePaused => "Service is paused"@,
        }
    }

    /// Renders the error as its sentence.
    pub fn message(&self) -> (s: String)
        ensures
            s@ == self.text(),
    {
        match self {
            Error::ServiceStoped => "Service already stoped".to_owned(),
            Error::ServicePaused => "Service is paused".to_owned(),
        }
    }
}

} // verus!
