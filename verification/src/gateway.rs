//! The gateway service: the decision core of the network front-end.
//!
//! The service is built once at startup around a filesystem adapter over the
//! shared operator. Binding the listener and pumping connections is the
//! transport collaborator's asynchronous work; what is decided per request —
//! that every target under the root is routed, and that every filesystem
//! outcome, failures included, becomes a protocol-level response — stands
//! here, and `handle` is total: it returns a response for every request and
//! can return nothing else.

use vstd::prelude::*;
use vstd::string::StrSliceExecFns;

use crate::adapter::FsAdapter;
use crate::error::RejectKind;
use crate::error::StorageError;
use crate::operator::EntryV;
use crate::operator::Operator;

verus! {

/// What the gateway is told at startup. Read once; immutable thereafter.
#[derive(Clone, Debug)]
pub struct GatewayConfig {
    /// The host:port string the listener binds to.
    pub addr: String,
}

/// One generic filesystem operation, as the protocol handler issues them
/// against the adapter's capability set.
#[derive(Clone, Debug)]
pub enum FsRequest {
    Read { path: String },
    Write { path: String, data: Vec<u8> },
    Stat { path: String },
    List { prefix: String },
    Remove { path: String },
    CreateDir { path: String },
}

/// A protocol-level response: a status, a body, and — for a listing — the
/// entries the protocol handler renders. The only thing request handling can
/// produce; there is no error variant to escape through.
#[derive(Clone, Debug, PartialEq, Eq)]
pub struct GatewayResponse {
    pub status: u16,
    pub body: Vec<u8>,
    /// The paths a listing reports; empty for every other verb.
    pub listing: Vec<String>,
}

/// The protocol status a translation failure is reported as.
pub open spec fn spec_status_of_kind(k: RejectKind) -> u16 {
    match k {
        RejectKind::NotFound => 404,
        RejectKind::PermissionDenied => 403,
        RejectKind::AlreadyExists => 409,
        RejectKind::RateLimited => 429,
        RejectKind::Unexpected => 500,
    }
}

/// Map a rejection kind to the protocol status reporting it.
pub fn status_of_kind(k: RejectKind) -> (s: u16)
    ensures
        s == spec_status_of_kind(k),
{
    match k {
        RejectKind::NotFound => 404,
        RejectKind::PermissionDenied => 403,
        RejectKind::AlreadyExists => 409,
        RejectKind::RateLimited => 429,
        RejectKind::Unexpected => 500,
    }
}

/// The two taxonomies agree: reporting a rejection kind as its protocol
/// status and classifying that status again returns the kind unchanged, so
/// nothing is lost between the backend's verdict and the gateway's answer.
pub proof fn lemma_status_classification_round_trip(k: RejectKind)
    ensures
        crate::error::spec_classify_status(spec_status_of_kind(k)) == k,
{
}

/// The protocol status any storage error is answered with: a translation
/// failure's own status by its kind, everything else reported as unexpected.
pub open spec fn spec_status_of_error(e: StorageError) -> u16 {
    match e {
        StorageError::ProtocolTranslationFailed { kind } => spec_status_of_kind(kind),
        _ => 500,
    }
}

/// Map a storage error to the protocol status reporting it.
pub fn status_of_error(e: &StorageError) -> (s: u16)
    ensures
        s == spec_status_of_error(*e),
{
    match e {
        StorageError::ProtocolTranslationFailed { kind } => status_of_kind(*kind),
        _ => 500,
    }
}

/// Whether the service root routes a request target: every target under "/"
/// is, unconditionally.
pub open spec fn spec_routes(path: Seq<char>) -> bool {
    path.len() > 0 && path[0] == '/'
}

/// Whether this request target is routed to the protocol handler.
pub fn routes(path: &String) -> (r: bool)
    ensures
        r == spec_routes(path@),
{
    if path.as_str().unicode_len() == 0 {
        false
    } else {
        path.as_str().get_char(0) == '/'
    }
}

/// No target under the root is silently unrouted: every path of the form
/// "/" followed by an arbitrary suffix is routed to the handler.
pub proof fn lemma_every_path_routed(suffix: Seq<char>)
    ensures
        spec_routes(seq!['/'] + suffix),
{
    assert((seq!['/'] + suffix)[0] == '/');
}

/// The network-facing service: the startup configuration, the one protocol
/// handler's adapter, and the shared storage operator every adapter
/// duplicate acts on.
#[derive(Debug)]
pub struct WebdavService {
    /// The configuration read at startup.
    pub cfg: GatewayConfig,
    /// The adapter the protocol handler is built around, once, at startup.
    pub webdavfs: FsAdapter,
    /// The one shared storage handle.
    pub op: Operator,
}

impl WebdavService {
    /// Well-formed: the shared operator is.
    pub open spec fn wf(&self) -> bool {
        self.op.wf()
    }

    /// Build the service once at startup: the adapter is constructed around
    /// the operator handle and reused for every request thereafter.
    pub fn new(cfg: GatewayConfig, op: Operator) -> (s: WebdavService)
        requires
            op.wf(),
        ensures
            s.wf(),
            s.cfg == cfg,
            s.op == op,
    {
        WebdavService { cfg, webdavfs: FsAdapter::new(), op }
    }

    /// Serve one filesystem request: total dispatch. Every request yields a
    /// response — a success status with the data where the adapter satisfied
    /// the verb, the translation failure's protocol status where it did not —
    /// and nothing can escape as a process-level fault.
    pub fn handle(&mut self, req: FsRequest) -> (resp: GatewayResponse)
        requires
            old(self).wf(),
        ensures
            final(self).wf(),
            final(self).cfg == old(self).cfg,
            match req {
                FsRequest::Read { path } => final(self).op@ == old(self).op@
                    && resp.listing@.len() == 0 && (
                    if old(self).op@.contains_key(path@) && old(self).op@[path@] is File {
                        resp.status == 200 && old(self).op@[path@] == EntryV::File(resp.body@)
                    } else {
                        resp.status == 404 && resp.body@.len() == 0
                    }
                ),
                FsRequest::Write { path, data } => resp.status == 201 && resp.body@.len() == 0
                    && resp.listing@.len() == 0
                    && final(self).op@ == old(self).op@.insert(path@, EntryV::File(data@)),
                FsRequest::Stat { path } => final(self).op@ == old(self).op@ && resp.body@.len()
                    == 0 && resp.listing@.len() == 0 && (
                    if old(self).op@.contains_key(path@) {
                        resp.status == 200
                    } else {
                        resp.status == 404
                    }
                ),
                FsRequest::List { prefix } => final(self).op@ == old(self).op@ && resp.status
                    == 207 && resp.body@.len() == 0 && (forall|j: int|
                    0 <= j < resp.listing@.len() ==> #[trigger] old(self).op@.contains_key(
                        resp.listing@[j]@,
                    ) && prefix@.is_prefix_of(resp.listing@[j]@)) && (forall|k: Seq<char>|
                    old(self).op@.contains_key(k) && #[trigger] prefix@.is_prefix_of(k)
                        ==> exists|j: int|
                        0 <= j < resp.listing@.len() && resp.listing@[j]@ == k),
                FsRequest::Remove { path } => resp.body@.len() == 0 && resp.listing@.len() == 0
                    && (
                    if old(self).op@.contains_key(path@) {
                        resp.status == 204 && final(self).op@ == old(self).op@.remove(path@)
                    } else {
                        resp.status == 404 && final(self).op@ == old(self).op@
                    }
                ),
                FsRequest::CreateDir { path } => resp.body@.len() == 0 && resp.listing@.len()
                    == 0 && (
                    if old(self).op@.contains_key(path@) && old(self).op@[path@] is File {
                        resp.status == 409 && final(self).op@ == old(self).op@
                    } else {
                        resp.status == 201 && final(self).op@ == old(self).op@.insert(
                            path@,
                            EntryV::Dir,
                        )
                    }
                ),
            },
    {
        match req {
            FsRequest::Read { path } => {
                match self.webdavfs.open_read(&self.op, &path) {
                    Ok(data) => GatewayResponse { status: 200, body: data, listing: Vec::new() },
                    Err(e) => GatewayResponse {
                        status: status_of_error(&e),
                        body: Vec::new(),
                        listing: Vec::new(),
                    },
                }
            },
            FsRequest::Write { path, data } => {
                self.webdavfs.open_write(&mut self.op, &path, data);
                GatewayResponse { status: 201, body: Vec::new(), listing: Vec::new() }
            },
            FsRequest::Stat { path } => {
                match self.webdavfs.stat(&self.op, &path) {
                    Ok(_) => GatewayResponse { status: 200, body: Vec::new(), listing: Vec::new() },
                    Err(e) => GatewayResponse {
                        status: status_of_error(&e),
                        body: Vec::new(),
                        listing: Vec::new(),
                    },
                }
            },
            FsRequest::List { prefix } => {
                let listing = self.webdavfs.list(&self.op, &prefix);
                let ghost l = listing@;
                let resp = GatewayResponse { status: 207, body: Vec::new(), listing };
                proof {
                    assert(resp.listing@ == l);
                    assert forall|k: Seq<char>|
                        self.op@.contains_key(k) && #[trigger] prefix@.is_prefix_of(k)
                            implies exists|j: int|
                                0 <= j < resp.listing@.len() && resp.listing@[j]@ == k by {
                        let j = choose|j: int| 0 <= j < l.len() && l[j]@ == k;
                        assert(0 <= j < resp.listing@.len() && resp.listing@[j]@ == k);
                    }
                }
                resp
            },
            FsRequest::Remove { path } => {
                match self.webdavfs.remove(&mut self.op, &path) {
                    Ok(_) => GatewayResponse { status: 204, body: Vec::new(), listing: Vec::new() },
                    Err(e) => GatewayResponse {
                        status: status_of_error(&e),
                        body: Vec::new(),
                        listing: Vec::new(),
                    },
                }
            },
            FsRequest::CreateDir { path } => {
                match self.webdavfs.create_dir(&mut self.op, &path) {
                    Ok(_) => GatewayResponse { status: 201, body: Vec::new(), listing: Vec::new() },
                    Err(e) => GatewayResponse {
                        status: status_of_error(&e),
                        body: Vec::new(),
                        listing: Vec::new(),
                    },
                }
            },
        }
    }
}

} // verus!
