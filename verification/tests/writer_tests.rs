//! The backend writer: the one-write lifecycle, status interpretation, the
//! append capability limit, and always-safe close.

use oss_gateway::error::{RejectKind, StorageError};
use oss_gateway::request::{OpWrite, OssBackend};
use oss_gateway::writer::{BackendWrite, OssWriter, UploadReply, WriterState};

fn backend() -> OssBackend {
    OssBackend { endpoint: String::from("https://oss.example.com"), bucket: String::from("pail") }
}

fn writer(path: &str) -> OssWriter {
    OssWriter::new(backend(), OpWrite::new(), String::from(path))
}

#[test]
fn write_succeeds_on_200() {
    let mut w = writer("obj");
    let r = w.write(UploadReply::Responded { status: 200, body: Vec::new() });
    assert_eq!(r, Ok(()));
    assert_eq!(w.state, WriterState::Writing);
}

#[test]
fn write_succeeds_on_201() {
    let mut w = writer("obj");
    let r = w.write(UploadReply::Responded { status: 201, body: Vec::new() });
    assert_eq!(r, Ok(()));
}

#[test]
fn write_rejected_on_other_status_keeps_status_and_body() {
    let mut w = writer("obj");
    let r = w.write(UploadReply::Responded { status: 500, body: vec![1, 2, 3] });
    assert_eq!(
        r,
        Err(StorageError::BackendRejected {
            kind: RejectKind::Unexpected,
            status: 500,
            body: vec![1, 2, 3],
        })
    );
}

#[test]
fn write_404_is_not_found_and_retains_body() {
    let mut w = writer("missing");
    let body = b"<Error><Code>NoSuchKey</Code></Error>".to_vec();
    let r = w.write(UploadReply::Responded { status: 404, body: body.clone() });
    match r {
        Err(StorageError::BackendRejected { kind, status, body: kept }) => {
            assert_eq!(kind, RejectKind::NotFound);
            assert_eq!(status, 404);
            assert_eq!(kept, body);
        }
        other => panic!("expected a backend rejection, got {:?}", other),
    }
}

#[test]
fn write_signing_refused_is_signing_error() {
    let mut w = writer("obj");
    let r = w.write(UploadReply::SigningRefused);
    assert_eq!(r, Err(StorageError::SigningFailed));
}

#[test]
fn write_transport_failure_is_transport_error() {
    let mut w = writer("obj");
    let r = w.write(UploadReply::TransportFailed);
    assert_eq!(r, Err(StorageError::TransportFailed));
}

#[test]
fn append_is_unsupported_for_every_payload_and_state() {
    let mut w = writer("obj");
    assert_eq!(w.append(Vec::new()), Err(StorageError::Unsupported));
    assert_eq!(w.append(vec![0u8; 4096]), Err(StorageError::Unsupported));
    let _ = w.write(UploadReply::Responded { status: 200, body: Vec::new() });
    assert_eq!(w.append(vec![7]), Err(StorageError::Unsupported));
    let _ = w.close();
    assert_eq!(w.append(vec![7]), Err(StorageError::Unsupported));
}

#[test]
fn close_succeeds_after_failed_write_and_is_idempotent() {
    let mut w = writer("obj");
    let r = w.write(UploadReply::Responded { status: 403, body: b"denied".to_vec() });
    assert!(r.is_err());
    assert_eq!(w.close(), Ok(()));
    assert_eq!(w.state, WriterState::Closed);
    assert_eq!(w.close(), Ok(()));
    assert_eq!(w.state, WriterState::Closed);
}

#[test]
fn close_succeeds_without_any_write() {
    let mut w = writer("obj");
    assert_eq!(w.close(), Ok(()));
}

#[test]
fn write_request_carries_target_and_body() {
    let op = OpWrite::new()
        .with_content_type(String::from("text/plain"))
        .with_content_disposition(String::from("attachment"));
    let w = OssWriter::new(backend(), op, String::from("dir/obj"));
    let req = w.write_request(b"hello".to_vec());
    assert_eq!(req.uri, "https://oss.example.com/dir/obj");
    assert_eq!(req.content_length, 5);
    assert_eq!(req.content_type.as_deref(), Some("text/plain"));
    assert_eq!(req.content_disposition.as_deref(), Some("attachment"));
    assert!(!req.append);
    assert_eq!(req.body, b"hello".to_vec());
}

#[test]
fn write_request_of_empty_body_declares_zero_length() {
    let w = writer("obj");
    let req = w.write_request(Vec::new());
    assert_eq!(req.content_length, 0);
    assert!(req.body.is_empty());
}

#[test]
fn any_reply_consumes_the_one_write() {
    let mut w = writer("obj");
    let _ = w.write(UploadReply::SigningRefused);
    assert_eq!(w.state, WriterState::Writing);
    let mut w2 = writer("obj");
    let _ = w2.write(UploadReply::TransportFailed);
    assert_eq!(w2.state, WriterState::Writing);
}
