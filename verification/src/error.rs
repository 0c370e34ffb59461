use vstd::prelude::*;

verus! {

/// The failures this library surfaces to callers.
#[derive(Clone, Debug, PartialEq, Eq)]
pub enum Error {
    /// The transport rejected an outgoing message or the connection broke.
    TransportFailed,
    /// The dispatch loop is gone; a registration could not be delivered.
    DispatchUnavailable,
    /// The correlated reply itself carried an application-level error.
    RemoteError { name: String, text: String },
    /// The dispatch loop shut down while the request was still pending.
    ClosedWithoutReply,
}

impl Error {
    /// True when the error came from the remote peer rather than from this process.
    pub fn is_remote(&self) -> (r: bool)
        ensures
            r == (self is RemoteError),
    {
        match self {
            Error::RemoteError { .. } => true,
            _ => false,
        }
    }
}

} // verus!
