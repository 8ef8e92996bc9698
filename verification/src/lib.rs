//! A single-request HTTP executor with bounded automatic retry.
//!
//! One invocation issues an HTTP GET through an injected transport
//! capability, classifies each outcome as retryable or terminal, and on a
//! retryable outcome sleeps for an exponentially growing backoff delay
//! before trying again, up to a fixed attempt limit.

pub mod classify;
pub mod model;
pub mod retry;
