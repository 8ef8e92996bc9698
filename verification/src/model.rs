//! Data model for one request attempt: the target, the outcome of one
//! attempt (a response or a transport failure with its cause chain), and
//! the retry decision.
//!
//! A transport failure carries a chain of causes: an ordered sequence of
//! typed entries, each one the immediate underlying cause of the entry
//! before it, ending at a root cause. Every entry exposes its category as
//! a plain tag, so the classifier walks the chain by tag matching.

use vstd::prelude::*;

verus! {

/// An opaque identifier (a URL) for the resource to fetch. Immutable for
/// the lifetime of one invocation.
pub struct RequestTarget {
    pub url: String,
}

impl RequestTarget {
    pub fn new(url: String) -> (t: RequestTarget)
        ensures
            t.url == url,
    {
        RequestTarget { url }
    }
}

/// The symbolic kind of an OS-level error found at the bottom of a cause
/// chain.
#[derive(Clone, Copy, Debug, PartialEq, Eq, Structural)]
pub enum OsErrorKind {
    ConnectionReset,
    ConnectionAborted,
    PermissionDenied,
    Other,
}

/// One entry of a cause chain, identified by its category tag.
#[derive(Clone, Copy, Debug, PartialEq, Eq, Structural)]
pub enum CauseKind {
    /// A protocol-level error: the response began but the connection
    /// closed before all bytes arrived.
    ProtocolIncompleteMessage,
    /// A protocol-level error: the stream was gracefully cancelled on the
    /// server side.
    ProtocolCanceled,
    /// A protocol-level error of any other category; its immediate
    /// underlying cause, if any, is the next entry of the chain.
    ProtocolOther,
    /// An OS-level error with its symbolic kind.
    Os(OsErrorKind),
    /// Any other cause (a malformed URL, a TLS failure, a DNS failure).
    Other,
}

/// A transport-level failure: the direct signals the transport reports of
/// the top-level error, and the cause chain below it, top-most cause
/// first.
pub struct TransportFailure {
    /// The top-level error itself signals a connection failure.
    pub is_connect: bool,
    /// The top-level error itself signals a timeout.
    pub is_timeout: bool,
    /// The causes under the top-level error, each entry the immediate
    /// underlying cause of the previous one.
    pub chain: Vec<CauseKind>,
}

/// A response, examined only for its numeric status code; the body is
/// passed through unexamined.
pub struct HttpResponse {
    pub status: u16,
    pub body: Vec<u8>,
}

/// The result of one request attempt.
pub enum AttemptResult {
    Response(HttpResponse),
    TransportError(TransportFailure),
}

/// Whether one attempt should be retried. A pure function of one
/// `AttemptResult`; no hidden state.
#[derive(Clone, Copy, Debug, PartialEq, Eq, Structural)]
pub enum RetryDecision {
    Retry,
    Terminal,
}

} // verus!
