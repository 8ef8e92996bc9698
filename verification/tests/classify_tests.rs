use http_retry::classify::{cause_class_matches, classify, get_source_error_type, CauseClass};
use http_retry::model::{
    AttemptResult, CauseKind, HttpResponse, OsErrorKind, RetryDecision, TransportFailure,
};

fn response(status: u16) -> AttemptResult {
    AttemptResult::Response(HttpResponse { status, body: Vec::new() })
}

fn failure(is_connect: bool, is_timeout: bool, chain: Vec<CauseKind>) -> AttemptResult {
    AttemptResult::TransportError(TransportFailure { is_connect, is_timeout, chain })
}

#[test]
fn retries_server_error_and_too_many_requests_statuses() {
    for status in [500u16, 502, 503, 429] {
        assert_eq!(classify(&response(status)), RetryDecision::Retry);
    }
}

#[test]
fn terminal_on_ordinary_statuses() {
    for status in [200u16, 301, 400, 404] {
        assert_eq!(classify(&response(status)), RetryDecision::Terminal);
    }
}

#[test]
fn status_boundary_at_500() {
    assert_eq!(classify(&response(499)), RetryDecision::Terminal);
    assert_eq!(classify(&response(500)), RetryDecision::Retry);
}

#[test]
fn retries_direct_connect_signal_whatever_the_chain() {
    assert_eq!(classify(&failure(true, false, vec![])), RetryDecision::Retry);
    assert_eq!(
        classify(&failure(true, false, vec![CauseKind::Other, CauseKind::Other])),
        RetryDecision::Retry
    );
    assert_eq!(
        classify(&failure(
            true,
            false,
            vec![CauseKind::ProtocolOther, CauseKind::Os(OsErrorKind::PermissionDenied)]
        )),
        RetryDecision::Retry
    );
}

#[test]
fn retries_direct_timeout_signal() {
    assert_eq!(classify(&failure(false, true, vec![])), RetryDecision::Retry);
}

#[test]
fn retries_incomplete_message_in_chain() {
    assert_eq!(
        classify(&failure(
            false,
            false,
            vec![CauseKind::Other, CauseKind::ProtocolIncompleteMessage]
        )),
        RetryDecision::Retry
    );
}

#[test]
fn retries_canceled_stream_in_chain() {
    assert_eq!(
        classify(&failure(false, false, vec![CauseKind::ProtocolCanceled])),
        RetryDecision::Retry
    );
}

#[test]
fn retries_connection_reset_under_protocol_entry() {
    assert_eq!(
        classify(&failure(
            false,
            false,
            vec![CauseKind::ProtocolOther, CauseKind::Os(OsErrorKind::ConnectionReset)]
        )),
        RetryDecision::Retry
    );
}

#[test]
fn retries_connection_abort_under_protocol_entry() {
    assert_eq!(
        classify(&failure(
            false,
            false,
            vec![
                CauseKind::Other,
                CauseKind::ProtocolOther,
                CauseKind::Os(OsErrorKind::ConnectionAborted)
            ]
        )),
        RetryDecision::Retry
    );
}

#[test]
fn terminal_on_permission_denied_under_protocol_entry() {
    assert_eq!(
        classify(&failure(
            false,
            false,
            vec![CauseKind::ProtocolOther, CauseKind::Os(OsErrorKind::PermissionDenied)]
        )),
        RetryDecision::Terminal
    );
}

#[test]
fn terminal_on_empty_chain() {
    assert_eq!(classify(&failure(false, false, vec![])), RetryDecision::Terminal);
}

#[test]
fn terminal_on_irrelevant_chain() {
    assert_eq!(
        classify(&failure(false, false, vec![CauseKind::Other])),
        RetryDecision::Terminal
    );
}

#[test]
fn terminal_when_reset_is_not_under_a_protocol_entry() {
    // An OS-level reset is consulted only as the immediate cause of a
    // protocol-level entry; on its own it does not mark the failure
    // transient.
    assert_eq!(
        classify(&failure(
            false,
            false,
            vec![CauseKind::Other, CauseKind::Os(OsErrorKind::ConnectionReset)]
        )),
        RetryDecision::Terminal
    );
}

#[test]
fn terminal_on_protocol_entry_without_os_cause() {
    assert_eq!(
        classify(&failure(false, false, vec![CauseKind::ProtocolOther])),
        RetryDecision::Terminal
    );
}

#[test]
fn finds_first_protocol_entry_in_chain() {
    let f = TransportFailure {
        is_connect: false,
        is_timeout: false,
        chain: vec![CauseKind::Other, CauseKind::ProtocolCanceled, CauseKind::ProtocolOther],
    };
    assert_eq!(get_source_error_type(&f, CauseClass::Protocol), Some(1));
}

#[test]
fn finds_first_os_entry_in_chain() {
    let f = TransportFailure {
        is_connect: false,
        is_timeout: false,
        chain: vec![
            CauseKind::ProtocolOther,
            CauseKind::Os(OsErrorKind::ConnectionReset),
            CauseKind::Os(OsErrorKind::Other),
        ],
    };
    assert_eq!(get_source_error_type(&f, CauseClass::Os), Some(1));
}

#[test]
fn reports_no_entry_of_an_absent_class() {
    let f = TransportFailure {
        is_connect: false,
        is_timeout: false,
        chain: vec![CauseKind::Other],
    };
    assert_eq!(get_source_error_type(&f, CauseClass::Os), None);
    let empty = TransportFailure { is_connect: false, is_timeout: false, chain: vec![] };
    assert_eq!(get_source_error_type(&empty, CauseClass::Protocol), None);
}

#[test]
fn cause_classes_cover_the_protocol_and_os_entries() {
    assert!(cause_class_matches(CauseKind::ProtocolIncompleteMessage, CauseClass::Protocol));
    assert!(cause_class_matches(CauseKind::ProtocolCanceled, CauseClass::Protocol));
    assert!(cause_class_matches(CauseKind::ProtocolOther, CauseClass::Protocol));
    assert!(!cause_class_matches(CauseKind::Other, CauseClass::Protocol));
    assert!(cause_class_matches(CauseKind::Os(OsErrorKind::Other), CauseClass::Os));
    assert!(!cause_class_matches(CauseKind::ProtocolOther, CauseClass::Os));
}
