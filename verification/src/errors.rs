use vstd::prelude::*;

verus! {

/// Error taxonomy of the coordination core.
///
/// Every failure surfaces to the interpreter call site as one of these typed
/// errors; none is silently swallowed.  Protocol errors of the HTTP engine
/// itself are outside this taxonomy and pass through as `Upstream` values.
#[derive(Clone, Debug)]
pub enum CoreError {
    /// The operation was cancelled through a host interrupt.  Recoverable:
    /// the caller may retry by issuing a new call.
    Interrupted,
    /// A push (or abort) was attempted after the channel closed.
    ChannelClosed,
    /// A receiver was used in two consumption modes, or converted twice.
    StreamAlreadyConsumed,
    /// A response body was accessed while another call had it checked out.
    BorrowConflict,
    /// An internal lock was corrupted by a prior panic.  Fatal.
    SyncPoisoned,
    /// An opaque upstream error: an abort message supplied by a producer, or
    /// a protocol error of the HTTP engine, passed through unchanged.
    Upstream(String),
}

impl CoreError {
    /// A human-readable description of the error.
    pub fn message(&self) -> (r: String)
        ensures
            r@ == self.message_spec(),
    {
        match self {
            CoreError::Interrupted => String::from_str("operation interrupted"),
            CoreError::ChannelClosed => String::from_str("channel is closed"),
            CoreError::StreamAlreadyConsumed => String::from_str("stream already consumed"),
            CoreError::BorrowConflict => String::from_str("body is currently borrowed"),
            CoreError::SyncPoisoned => String::from_str("internal lock poisoned"),
            CoreError::Upstream(m) => m.clone(),
        }
    }

    /// What `message` returns, per variant.
    pub open spec fn message_spec(&self) -> Seq<char> {
        match self {
            CoreError::Interrupted => "operation interrupted"@,
            CoreError::ChannelClosed => "channel is closed"@,
            CoreError::StreamAlreadyConsumed => "stream already consumed"@,
            CoreError::BorrowConflict => "body is currently borrowed"@,
            CoreError::SyncPoisoned => "internal lock poisoned"@,
            CoreError::Upstream(m) => m@,
        }
    }
}

/// The kind of a protocol error reported by the HTTP engine.  The engine's
/// own error value is opaque; the embedding classifies it into one of
/// these kinds, and the mapping to the host exception class below is fixed.
#[derive(Clone, Copy, Debug, PartialEq, Eq, Structural)]
pub enum EngineErrorKind {
    Builder,
    Body,
    Tls,
    ConnectionReset,
    Connect,
    Decode,
    Redirect,
    Timeout,
    Status,
    Request,
    /// Anything the engine does not classify further.
    Other,
}

impl EngineErrorKind {
    /// The host exception class this kind surfaces as.
    pub fn exception_name(&self) -> (r: &'static str)
        ensures
            r@ == self.exception_name_spec(),
    {
        match self {
            EngineErrorKind::Builder => "BuilderError",
            EngineErrorKind::Body => "BodyError",
            EngineErrorKind::Tls => "TlsError",
            EngineErrorKind::ConnectionReset => "ConnectionResetError",
            EngineErrorKind::Connect => "ConnectionError",
            EngineErrorKind::Decode => "DecodingError",
            EngineErrorKind::Redirect => "RedirectError",
            EngineErrorKind::Timeout => "TimeoutError",
            EngineErrorKind::Status => "StatusError",
            EngineErrorKind::Request => "RequestError",
            EngineErrorKind::Other => "RuntimeError",
        }
    }

    /// What `exception_name` returns, per kind.
    pub open spec fn exception_name_spec(&self) -> Seq<char> {
        match self {
            EngineErrorKind::Builder => "BuilderError"@,
            EngineErrorKind::Body => "BodyError"@,
            EngineErrorKind::Tls => "TlsError"@,
            EngineErrorKind::ConnectionReset => "ConnectionResetError"@,
            EngineErrorKind::Connect => "ConnectionError"@,
            EngineErrorKind::Decode => "DecodingError"@,
            EngineErrorKind::Redirect => "RedirectError"@,
            EngineErrorKind::Timeout => "TimeoutError"@,
            EngineErrorKind::Status => "StatusError"@,
            EngineErrorKind::Request => "RequestError"@,
            EngineErrorKind::Other => "RuntimeError"@,
        }
    }
}

} // verus!
