//! The error taxonomy of the write path and the gateway, and the
//! classification of backend response statuses.

use vstd::prelude::*;

verus! {

/// How a backend rejection is subclassified, by the status code of the
/// response that rejected the request.
#[derive(Clone, Copy, Debug, PartialEq, Eq, Structural)]
pub enum RejectKind {
    /// The addressed object does not exist.
    NotFound,
    /// The backend refused the caller's credentials or rights.
    PermissionDenied,
    /// The target already exists and cannot be replaced by this request.
    AlreadyExists,
    /// The backend throttled the caller.
    RateLimited,
    /// Any status outside the classified set.
    Unexpected,
}

/// Everything a storage operation can fail with.
///
/// `Unsupported`, `SigningFailed` and `TransportFailed` arise before any
/// status was obtained from the backend; `BackendRejected` carries the
/// backend's own verdict together with the raw response body, kept for
/// diagnostics; `ProtocolTranslationFailed` is the adapter's failure to
/// satisfy a filesystem verb, which the gateway turns into a protocol-level
/// response and never into a process fault.
#[derive(Clone, Debug, PartialEq, Eq)]
pub enum StorageError {
    /// The operation is not offered by this backend family; not retryable.
    Unsupported,
    /// Credentials were invalid or malformed before the request left the
    /// process; not retryable without fixing them.
    SigningFailed,
    /// The network failed before a status was obtained; the caller may retry.
    TransportFailed,
    /// A non-success status from the backend, with the parsed response body.
    BackendRejected { kind: RejectKind, status: u16, body: Vec<u8> },
    /// A filesystem verb the adapter could not satisfy.
    ProtocolTranslationFailed { kind: RejectKind },
}

/// The statuses on which an upload counts as accepted.
pub open spec fn is_success_status(status: u16) -> bool {
    status == 200 || status == 201
}

/// How a non-success status is subclassified.
pub open spec fn spec_classify_status(status: u16) -> RejectKind {
    if status == 404 {
        RejectKind::NotFound
    } else if status == 403 {
        RejectKind::PermissionDenied
    } else if status == 409 {
        RejectKind::AlreadyExists
    } else if status == 429 {
        RejectKind::RateLimited
    } else {
        RejectKind::Unexpected
    }
}

/// Subclassify a backend status code.
pub fn classify_status(status: u16) -> (k: RejectKind)
    ensures
        k == spec_classify_status(status),
{
    if status == 404 {
        RejectKind::NotFound
    } else if status == 403 {
        RejectKind::PermissionDenied
    } else if status == 409 {
        RejectKind::AlreadyExists
    } else if status == 429 {
        RejectKind::RateLimited
    } else {
        RejectKind::Unexpected
    }
}

/// Turn a non-success backend response into the structured error that the
/// write path returns: the status subclassified, the body retained.
pub fn parse_error(status: u16, body: Vec<u8>) -> (e: StorageError)
    ensures
        e == (StorageError::BackendRejected {
            kind: spec_classify_status(status),
            status,
            body,
        }),
{
    let kind = classify_status(status);
    StorageError::BackendRejected { kind, status, body }
}

} // verus!
