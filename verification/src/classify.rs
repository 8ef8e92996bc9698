//! Failure classifier: decides for one attempt result whether the attempt
//! should be retried.
//!
//! A response is retried only on a server-error status or on 429; a
//! transport failure is retried only when it plausibly stems from a
//! transient network interruption — a direct connect-failure or timeout
//! signal, a half-received response, a gracefully cancelled stream, or a
//! protocol-level error wrapping an OS-level connection reset or abort.
//! Everything else, including well-formed client errors and failures with
//! an irrelevant cause chain, is a definitive answer that retrying cannot
//! fix.

use vstd::prelude::*;

use crate::model::{AttemptResult, CauseKind, OsErrorKind, RetryDecision, TransportFailure};

verus! {

/// A response status that calls for a retry: a server error (status 500
/// and above) or 429 (too many requests).
pub open spec fn retryable_status(status: u16) -> bool {
    status >= 500 || status == 429
}

/// A protocol-level chain entry whose category alone marks the failure
/// transient: an incomplete message or a gracefully cancelled stream.
pub open spec fn transient_protocol_entry(c: CauseKind) -> bool {
    c is ProtocolIncompleteMessage || c is ProtocolCanceled
}

/// An OS-level error kind caused by a transient network interruption.
pub open spec fn transient_os_kind(k: OsErrorKind) -> bool {
    k is ConnectionReset || k is ConnectionAborted
}

/// A protocol-level entry of another category whose immediate underlying
/// cause is an OS-level connection reset or abort.
pub open spec fn transient_protocol_pair(entry: CauseKind, under: CauseKind) -> bool {
    entry is ProtocolOther && (under matches CauseKind::Os(k) && transient_os_kind(k))
}

/// The chain holds a protocol-level entry that is itself transient.
pub open spec fn chain_has_transient_protocol(chain: Seq<CauseKind>) -> bool {
    exists|i: int| 0 <= i < chain.len() && transient_protocol_entry(#[trigger] chain[i])
}

/// The chain holds a protocol-level entry whose immediate underlying
/// cause is an OS-level connection reset or abort.
pub open spec fn chain_has_reset_under_protocol(chain: Seq<CauseKind>) -> bool {
    exists|i: int|
        0 <= i && i + 1 < chain.len() && transient_protocol_pair(
            #[trigger] chain[i],
            chain[i + 1],
        )
}

/// A cause chain that marks a transport failure as transient.
pub open spec fn transient_chain(chain: Seq<CauseKind>) -> bool {
    chain_has_transient_protocol(chain) || chain_has_reset_under_protocol(chain)
}

/// The retry decision for one attempt result, evaluated in order: a
/// response goes by its status alone; a transport failure goes first by
/// its direct connect/timeout signals, then by its cause chain.
pub open spec fn spec_classify(r: AttemptResult) -> RetryDecision {
    match r {
        AttemptResult::Response(resp) => if retryable_status(resp.status) {
            RetryDecision::Retry
        } else {
            RetryDecision::Terminal
        },
        AttemptResult::TransportError(f) => if f.is_connect || f.is_timeout || transient_chain(
            f.chain@,
        ) {
            RetryDecision::Retry
        } else {
            RetryDecision::Terminal
        },
    }
}

/// Decides whether one attempt should be retried. Pure: no side effects,
/// no I/O, no hidden state.
#[verifier::loop_isolation(false)]
pub fn classify(r: &AttemptResult) -> (decision: RetryDecision)
    ensures
        decision == spec_classify(*r),
{
    match r {
        AttemptResult::Response(resp) => {
            if resp.status >= 500 || resp.status == 429 {
                RetryDecision::Retry
            } else {
                RetryDecision::Terminal
            }
        },
        AttemptResult::TransportError(f) => {
            if f.is_connect || f.is_timeout {
                return RetryDecision::Retry;
            }
            let n = f.chain.len();
            let mut i: usize = 0;
            while i < n
                invariant
                    n == f.chain@.len(),
                    i <= n,
                    forall|j: int| 0 <= j < i ==> !transient_protocol_entry(#[trigger] f.chain@[j]),
                    forall|j: int|
                        0 <= j < i && j + 1 < n ==> !transient_protocol_pair(
                            #[trigger] f.chain@[j],
                            f.chain@[j + 1],
                        ),
                decreases n - i,
            {
                let entry = f.chain[i];
                match entry {
                    CauseKind::ProtocolIncompleteMessage | CauseKind::ProtocolCanceled => {
                        proof {
                            assert(transient_protocol_entry(f.chain@[i as int]));
                            assert(chain_has_transient_protocol(f.chain@));
                        }
                        return RetryDecision::Retry;
                    },
                    CauseKind::ProtocolOther => {
                        if i + 1 < n {
                            match f.chain[i + 1] {
                                CauseKind::Os(k) => {
                                    match k {
                                        OsErrorKind::ConnectionReset
                                        | OsErrorKind::ConnectionAborted => {
                                            proof {
                                                assert(transient_protocol_pair(
                                                    f.chain@[i as int],
                                                    f.chain@[i + 1],
                                                ));
                                                assert(chain_has_reset_under_protocol(f.chain@));
                                            }
                                            return RetryDecision::Retry;
                                        },
                                        _ => {},
                                    }
                                },
                                _ => {},
                            }
                        }
                    },
                    _ => {},
                }
                i = i + 1;
            }
            RetryDecision::Terminal
        },
    }
}

/// The class of chain entries a chain search looks for: protocol-level
/// entries or OS-level entries.
#[derive(Clone, Copy, Debug, PartialEq, Eq, Structural)]
pub enum CauseClass {
    Protocol,
    Os,
}

/// Whether one chain entry belongs to the given class.
pub open spec fn cause_in_class(c: CauseKind, class: CauseClass) -> bool {
    match class {
        CauseClass::Protocol => c is ProtocolIncompleteMessage || c is ProtocolCanceled
            || c is ProtocolOther,
        CauseClass::Os => c is Os,
    }
}

/// Whether one chain entry belongs to the given class.
pub fn cause_class_matches(c: CauseKind, class: CauseClass) -> (b: bool)
    ensures
        b == cause_in_class(c, class),
{
    match class {
        CauseClass::Protocol => match c {
            CauseKind::ProtocolIncompleteMessage
            | CauseKind::ProtocolCanceled
            | CauseKind::ProtocolOther => true,
            _ => false,
        },
        CauseClass::Os => match c {
            CauseKind::Os(_) => true,
            _ => false,
        },
    }
}

/// Walks the cause chain of a transport failure from the top-level error
/// downward and returns the index of the first entry of the sought class,
/// or `None` when no entry of that class exists anywhere in the chain.
pub fn get_source_error_type(failure: &TransportFailure, class: CauseClass) -> (found: Option<
    usize,
>)
    ensures
        match found {
            Some(i) => i < failure.chain@.len() && cause_in_class(failure.chain@[i as int], class)
                && forall|j: int| 0 <= j < i ==> !cause_in_class(#[trigger] failure.chain@[j], class),
            None => forall|j: int|
                0 <= j < failure.chain@.len() ==> !cause_in_class(
                    #[trigger] failure.chain@[j],
                    class,
                ),
        },
{
    let n = failure.chain.len();
    let mut i: usize = 0;
    while i < n
        invariant
            n == failure.chain@.len(),
            i <= n,
            forall|j: int| 0 <= j < i ==> !cause_in_class(#[trigger] failure.chain@[j], class),
        decreases n - i,
    {
        if cause_class_matches(failure.chain[i], class) {
            return Some(i);
        }
        i = i + 1;
    }
    None
}

/// Law: a response with a server-error status (500 and above) or with
/// status 429 is always classified as retryable, whatever its body.
pub proof fn lemma_server_error_is_retried(r: AttemptResult)
    requires
        r matches AttemptResult::Response(resp) && retryable_status(resp.status),
    ensures
        spec_classify(r) is Retry,
{
}

/// Law: a response whose status is below 500 and is not 429 — every
/// ordinary success, redirect, and client error — is never retried.
pub proof fn lemma_ordinary_status_is_terminal(r: AttemptResult)
    requires
        r matches AttemptResult::Response(resp) && !retryable_status(resp.status),
    ensures
        spec_classify(r) is Terminal,
{
}

/// Law: a transport failure that directly reports a connect failure or a
/// timeout is retried, regardless of the contents of its cause chain.
pub proof fn lemma_direct_signal_is_retried(f: TransportFailure)
    requires
        f.is_connect || f.is_timeout,
    ensures
        spec_classify(AttemptResult::TransportError(f)) is Retry,
{
}

/// Law: a transport failure whose cause chain holds a protocol-level
/// incomplete-message or cancelled entry is retried, even without a
/// direct connect or timeout signal.
pub proof fn lemma_transient_protocol_is_retried(f: TransportFailure, i: int)
    requires
        0 <= i < f.chain@.len(),
        transient_protocol_entry(f.chain@[i]),
    ensures
        spec_classify(AttemptResult::TransportError(f)) is Retry,
{
    assert(chain_has_transient_protocol(f.chain@));
}

/// Law: a transport failure whose cause chain holds a protocol-level
/// entry whose immediate underlying cause is an OS-level connection reset
/// or abort is retried.
pub proof fn lemma_reset_under_protocol_is_retried(f: TransportFailure, i: int)
    requires
        0 <= i,
        i + 1 < f.chain@.len(),
        transient_protocol_pair(f.chain@[i], f.chain@[i + 1]),
    ensures
        spec_classify(AttemptResult::TransportError(f)) is Retry,
{
    assert(chain_has_reset_under_protocol(f.chain@));
}

/// Law: a transport failure with no direct connect or timeout signal and
/// no transient pattern anywhere in its cause chain is terminal.
pub proof fn lemma_irrelevant_chain_is_terminal(f: TransportFailure)
    requires
        !f.is_connect,
        !f.is_timeout,
        !transient_chain(f.chain@),
    ensures
        spec_classify(AttemptResult::TransportError(f)) is Terminal,
{
}

/// Law: a transport failure with no direct connect or timeout signal and
/// an empty cause chain — a malformed URL, for one — is terminal.
pub proof fn lemma_empty_chain_is_terminal(f: TransportFailure)
    requires
        !f.is_connect,
        !f.is_timeout,
        f.chain@.len() == 0,
    ensures
        spec_classify(AttemptResult::TransportError(f)) is Terminal,
{
}

} // verus!
