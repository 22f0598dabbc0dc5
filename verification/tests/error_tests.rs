//! Status classification and the structured error it produces.

use oss_gateway::error::{classify_status, parse_error, RejectKind, StorageError};
use oss_gateway::gateway::status_of_kind;

#[test]
fn classify_known_statuses() {
    assert_eq!(classify_status(404), RejectKind::NotFound);
    assert_eq!(classify_status(403), RejectKind::PermissionDenied);
    assert_eq!(classify_status(409), RejectKind::AlreadyExists);
    assert_eq!(classify_status(429), RejectKind::RateLimited);
}

#[test]
fn classify_everything_else_as_unexpected() {
    assert_eq!(classify_status(418), RejectKind::Unexpected);
    assert_eq!(classify_status(500), RejectKind::Unexpected);
    assert_eq!(classify_status(503), RejectKind::Unexpected);
    assert_eq!(classify_status(200), RejectKind::Unexpected);
}

#[test]
fn parse_error_retains_status_and_body() {
    let e = parse_error(429, b"slow down".to_vec());
    assert_eq!(
        e,
        StorageError::BackendRejected {
            kind: RejectKind::RateLimited,
            status: 429,
            body: b"slow down".to_vec(),
        }
    );
}

#[test]
fn status_of_kind_inverts_classification() {
    for kind in [
        RejectKind::NotFound,
        RejectKind::PermissionDenied,
        RejectKind::AlreadyExists,
        RejectKind::RateLimited,
        RejectKind::Unexpected,
    ] {
        assert_eq!(classify_status(status_of_kind(kind)), kind);
    }
}
