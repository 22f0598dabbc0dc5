//! Construction of the backend upload request: the write operation's
//! parameters, the backend's addressing, and the materialized single-shot
//! PUT-equivalent request that the signing collaborator is handed.

use vstd::prelude::*;
use vstd::string::StringExecFns;

verus! {

/// The parameters of one write operation, as the caller declared them.
#[derive(Clone, Debug)]
pub struct OpWrite {
    /// The media type to declare on the upload, if any.
    pub content_type: Option<String>,
    /// The content disposition to declare on the upload, if any.
    pub content_disposition: Option<String>,
}

impl OpWrite {
    /// A write operation with no declared content type or disposition.
    pub fn new() -> (op: OpWrite)
        ensures
            op.content_type is None,
            op.content_disposition is None,
    {
        OpWrite { content_type: None, content_disposition: None }
    }

    /// The same operation with the content type declared.
    pub fn with_content_type(self, content_type: String) -> (op: OpWrite)
        ensures
            op.content_type == Some(content_type),
            op.content_disposition == self.content_disposition,
    {
        OpWrite { content_type: Some(content_type), ..self }
    }

    /// The same operation with the content disposition declared.
    pub fn with_content_disposition(self, content_disposition: String) -> (op: OpWrite)
        ensures
            op.content_disposition == Some(content_disposition),
            op.content_type == self.content_type,
    {
        OpWrite { content_disposition: Some(content_disposition), ..self }
    }
}

/// One backend's addressing: where uploads go. The signing context itself is
/// held by the signing collaborator; this crate only carries the endpoint and
/// the container identity that request construction needs. Immutable for a
/// writer's lifetime.
#[derive(Clone, Debug)]
pub struct OssBackend {
    /// The scheme and host uploads are addressed to.
    pub endpoint: String,
    /// The bucket or container the backend selects objects in.
    pub bucket: String,
}

/// A write operation materialized into a transport-layer request: a
/// PUT-equivalent upload of `body` to `uri`, declared as single-shot.
/// Ephemeral: built, signed, sent, never persisted.
#[derive(Clone, Debug)]
pub struct PutRequest {
    /// The full target, `<endpoint>/<path>`.
    pub uri: String,
    /// The declared byte length, known exactly for a single-shot upload.
    pub content_length: usize,
    /// The declared media type, if any.
    pub content_type: Option<String>,
    /// The declared content disposition, if any.
    pub content_disposition: Option<String>,
    /// Whether the upload appends to the object; always false for this
    /// backend family, which only offers single-shot replacement.
    pub append: bool,
    /// The raw bytes to upload.
    pub body: Vec<u8>,
}

/// A request with the signing collaborator's authentication attached.
#[derive(Clone, Debug)]
pub struct SignedRequest {
    /// The request as it was built.
    pub request: PutRequest,
    /// The authentication attachment the signer produced.
    pub auth: String,
}

/// Copy an optional header value; the copy shows the same characters.
fn clone_opt_string(s: &Option<String>) -> (r: Option<String>)
    ensures
        r == *s,
{
    match s {
        Some(v) => Some(v.clone()),
        None => None,
    }
}

impl OssBackend {
    /// Build the single-shot upload request for `path` carrying `body`: a
    /// PUT-equivalent request to `<endpoint>/<path>` whose declared length is
    /// the body's exact length, marked as non-append.
    pub fn put_object_request(
        &self,
        path: &String,
        content_type: &Option<String>,
        content_disposition: &Option<String>,
        body: Vec<u8>,
    ) -> (r: PutRequest)
        ensures
            r.uri@ == self.endpoint@ + "/"@ + path@,
            r.content_length == body.len(),
            r.content_type == content_type,
            r.content_disposition == content_disposition,
            r.append == false,
            r.body == body,
    {
        let uri = self.endpoint.clone().concat("/").concat(path.as_str());
        let content_length = body.len();
        PutRequest {
            uri,
            content_length,
            content_type: clone_opt_string(content_type),
            content_disposition: clone_opt_string(content_disposition),
            append: false,
            body,
        }
    }
}

/// Attach the signing collaborator's authentication to a built request,
/// changing nothing else about it.
pub fn attach_auth(request: PutRequest, auth: String) -> (r: SignedRequest)
    ensures
        r.request == request,
        r.auth == auth,
{
    SignedRequest { request, auth }
}

} // verus!
