//! The backend writer: one upload's write-then-close lifecycle.
//!
//! A writer owns one write operation's parameters and walks Idle -> Writing
//! -> Closed. The upload itself is one pipeline: build the request, have the
//! signing collaborator sign it, have the transport collaborator send it,
//! then interpret the status. Signing and transport run outside this crate;
//! the writer builds the request they are given (`write_request`) and decides
//! what their reply means (`BackendWrite::write`), so the only
//! backend-specific code here is request construction and status
//! classification.

use vstd::prelude::*;

use crate::error::RejectKind;
use crate::error::StorageError;
use crate::error::is_success_status;
use crate::error::spec_classify_status;
use crate::error::parse_error;
use crate::request::OpWrite;
use crate::request::OssBackend;
use crate::request::PutRequest;

verus! {

/// Where a writer stands in its lifecycle.
#[derive(Clone, Copy, Debug, PartialEq, Eq, Structural)]
pub enum WriterState {
    /// Constructed; the one write has not been attempted yet.
    Idle,
    /// The one write has been attempted; the operation is consumed.
    Writing,
    /// Terminal; reached by `close`, which may be repeated freely.
    Closed,
}

/// What the signing and transport collaborators came back with for one
/// upload attempt.
#[derive(Clone, Debug, PartialEq, Eq)]
pub enum UploadReply {
    /// The signer refused the request: credentials invalid or malformed.
    SigningRefused,
    /// The transport failed before any status was obtained.
    TransportFailed,
    /// The backend answered with a status and a (possibly empty) body.
    Responded { status: u16, body: Vec<u8> },
}

/// What an upload reply means for the caller: accepted on a success status,
/// otherwise the structured error, with the body of a rejection retained.
pub open spec fn interpret_reply(reply: UploadReply) -> Result<(), StorageError> {
    match reply {
        UploadReply::SigningRefused => Err(StorageError::SigningFailed),
        UploadReply::TransportFailed => Err(StorageError::TransportFailed),
        UploadReply::Responded { status, body } => if is_success_status(status) {
            Ok(())
        } else {
            Err(
                StorageError::BackendRejected {
                    kind: spec_classify_status(status),
                    status,
                    body,
                },
            )
        },
    }
}

/// One single-shot upload against a backend: the target path, the declared
/// parameters, and the lifecycle state. Not for concurrent use; one writer is
/// one in-flight upload.
#[derive(Clone, Debug)]
pub struct OssWriter {
    /// The backend addressing uploads are built against.
    pub backend: OssBackend,
    /// The declared parameters of this write operation.
    pub op: OpWrite,
    /// The object path the upload targets.
    pub path: String,
    /// Where this writer stands in Idle -> Writing -> Closed.
    pub state: WriterState,
}

impl OssWriter {
    /// A fresh writer for one upload of `path` against `backend`.
    pub fn new(backend: OssBackend, op: OpWrite, path: String) -> (w: OssWriter)
        ensures
            w.backend == backend,
            w.op == op,
            w.path == path,
            w.state == WriterState::Idle,
    {
        OssWriter { backend, op, path, state: WriterState::Idle }
    }

    /// Build the request for this writer's one write: a single-shot
    /// PUT-equivalent upload of `body` to the writer's target, carrying the
    /// declared content type and disposition, never marked as append. This is
    /// what the signing collaborator must be handed.
    pub fn write_request(&self, body: Vec<u8>) -> (r: PutRequest)
        requires
            self.state == WriterState::Idle,
        ensures
            r.uri@ == self.backend.endpoint@ + "/"@ + self.path@,
            r.content_length == body.len(),
            r.content_type == self.op.content_type,
            r.content_disposition == self.op.content_disposition,
            r.append == false,
            r.body == body,
    {
        self.backend.put_object_request(
            &self.path,
            &self.op.content_type,
            &self.op.content_disposition,
            body,
        )
    }

}

/// The write capability one backend family supplies: the interface every
/// backend's writer implements, chosen at construction time, dispatched with
/// no runtime type inspection. Whether append is offered is the backend's
/// own flag, not a universal rule.
pub trait BackendWrite: Sized {
    /// Where the writer stands in its lifecycle.
    spec fn writer_state(&self) -> WriterState;

    /// Whether this backend family offers append.
    spec fn supports_append(&self) -> bool;

    /// What this backend makes of an upload reply.
    spec fn write_outcome(&self, reply: UploadReply) -> Result<(), StorageError>;

    /// Complete the one write: interpret what the signing and transport
    /// collaborators came back with. Whatever came back, the attempt
    /// consumes the writer's one write.
    fn write(&mut self, reply: UploadReply) -> (r: Result<(), StorageError>)
        requires
            old(self).writer_state() == WriterState::Idle,
        ensures
            r == old(self).write_outcome(reply),
            final(self).writer_state() == WriterState::Writing,
    ;

    /// Append to the object, where the backend family offers appending at
    /// all; a family that does not offers only `Unsupported`, for every
    /// payload and in every state, changing nothing — callers must not retry.
    fn append(&mut self, body: Vec<u8>) -> (r: Result<(), StorageError>)
        ensures
            !old(self).supports_append() ==> r == Err::<(), StorageError>(
                StorageError::Unsupported,
            ) && *final(self) == *old(self),
    ;

    /// Close the writer. Always succeeds, in every state, whether or not the
    /// write succeeded, so cleanup paths may call it unconditionally and
    /// repeatedly.
    fn close(&mut self) -> (r: Result<(), StorageError>)
        ensures
            r == Ok::<(), StorageError>(()),
            final(self).writer_state() == WriterState::Closed,
    ;
}

impl BackendWrite for OssWriter {
    open spec fn writer_state(&self) -> WriterState {
        self.state
    }

    /// This backend family only does single-shot uploads.
    open spec fn supports_append(&self) -> bool {
        false
    }

    /// Success exactly on a backend status of 200 or 201; any other status
    /// becomes `BackendRejected` carrying that status and body; a signing or
    /// transport failure becomes its own error.
    open spec fn write_outcome(&self, reply: UploadReply) -> Result<(), StorageError> {
        interpret_reply(reply)
    }

    fn write(&mut self, reply: UploadReply) -> (r: Result<(), StorageError>) {
        self.state = WriterState::Writing;
        match reply {
            UploadReply::SigningRefused => Err(StorageError::SigningFailed),
            UploadReply::TransportFailed => Err(StorageError::TransportFailed),
            UploadReply::Responded { status, body } => {
                if status == 200 || status == 201 {
                    Ok(())
                } else {
                    Err(parse_error(status, body))
                }
            },
        }
    }

    fn append(&mut self, body: Vec<u8>) -> (r: Result<(), StorageError>) {
        let _ = body;
        Err(StorageError::Unsupported)
    }

    fn close(&mut self) -> (r: Result<(), StorageError>) {
        self.state = WriterState::Closed;
        Ok(())
    }
}

/// The one write is accepted exactly where the backend responded with status
/// 200 or 201; a response with any other status yields `BackendRejected`
/// carrying exactly that status and that body.
pub proof fn lemma_write_accepted_iff_success_status(status: u16, body: Vec<u8>)
    ensures
        interpret_reply(UploadReply::Responded { status, body }) is Ok <==> (status == 200
            || status == 201),
        !is_success_status(status) ==> interpret_reply(UploadReply::Responded { status, body })
            == Err::<(), StorageError>(
            StorageError::BackendRejected { kind: spec_classify_status(status), status, body },
        ),
{
}

/// A backend response of status 404 is classified as not-found, and the
/// resulting error retains the response body for inspection.
pub proof fn lemma_not_found_rejection(body: Vec<u8>)
    ensures
        interpret_reply(UploadReply::Responded { status: 404, body }) == Err::<(), StorageError>(
            StorageError::BackendRejected { kind: RejectKind::NotFound, status: 404, body },
        ),
{
}

} // verus!
