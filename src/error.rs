use vstd::prelude::*;

verus! {

/// The kind of an operating-system error, as far as the accept loop and the
/// binding logic need to tell kinds apart.
#[derive(Clone, Copy, Debug, PartialEq, Eq, Structural)]
pub enum ErrorKind {
    NotFound,
    PermissionDenied,
    ConnectionRefused,
    ConnectionReset,
    ConnectionAborted,
    NotConnected,
    AddrInUse,
    AddrNotAvailable,
    BrokenPipe,
    WouldBlock,
    InvalidInput,
    TimedOut,
    Interrupted,
    Unsupported,
    OutOfMemory,
    Other,
}

impl ErrorKind {
    /// Peer-side connection churn between the kernel's accept and the
    /// handshake: recoverable by backing off and accepting again.
    pub open spec fn spec_is_transient(self) -> bool {
        ||| self == ErrorKind::ConnectionRefused
        ||| self == ErrorKind::ConnectionAborted
        ||| self == ErrorKind::ConnectionReset
    }
}

/// Tells whether an accept-time error only needs a backoff delay before the
/// next accept (true), or means the listening resource is unusable (false).
pub fn is_transient_error(kind: ErrorKind) -> (r: bool)
    ensures
        r == kind.spec_is_transient(),
{
    match kind {
        ErrorKind::ConnectionRefused | ErrorKind::ConnectionAborted | ErrorKind::ConnectionReset => true,
        _ => false,
    }
}

/// Why a listener stopped, or could not start.
#[derive(Debug)]
pub enum ListenError {
    /// Binding the endpoint failed; never retried.
    Bind(ErrorKind),
    /// `listen` was called on a listener whose socket was already handed to
    /// an accept loop; reported as a bind failure.
    Consumed,
    /// The accept loop met an error that is not transient.
    Accept(ErrorKind),
    /// The failures of several child listeners, in the children's order.
    Composite(Vec<ListenError>),
}

impl ListenError {
    /// The listener never got a usable socket.
    pub open spec fn spec_is_bind_error(&self) -> bool {
        match self {
            ListenError::Bind(_) => true,
            ListenError::Consumed => true,
            _ => false,
        }
    }
}

} // verus!
