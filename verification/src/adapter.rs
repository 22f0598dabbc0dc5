//! The filesystem adapter: the capability set a generic remote-filesystem
//! protocol handler drives, each verb translated into exactly one call on the
//! shared storage operator.
//!
//! An adapter is duplicated per connection or per request in constant time,
//! and a duplicate carries no storage of its own: every duplicate acts on the
//! one operator handle the service holds, so a write made through one
//! duplicate is immediately what any other duplicate reads. No caching, no
//! buffering beyond the one operation in hand.

use vstd::prelude::*;

use crate::error::RejectKind;
use crate::error::StorageError;
use crate::operator::EntryV;
use crate::operator::Metadata;
use crate::operator::Operator;

verus! {

/// The translation layer from filesystem verbs to operator calls. Stateless:
/// the shared operator is handed in at each call, which is what makes
/// duplication free and staleness impossible.
#[derive(Clone, Copy, Debug, PartialEq, Eq, Structural)]
pub struct FsAdapter {}

impl FsAdapter {
    /// A fresh adapter over the shared operator.
    pub fn new() -> (a: FsAdapter)
        ensures
            a == (FsAdapter {}),
    {
        FsAdapter {}
    }

    /// Duplicate the adapter for another connection or request. Constant
    /// time; the duplicate is indistinguishable from the original and acts on
    /// the same operator it is handed.
    pub fn duplicate(&self) -> (r: FsAdapter)
        ensures
            r == *self,
    {
        FsAdapter {}
    }

    /// Open for read: one `read` on the operator.
    pub fn open_read(&self, op: &Operator, path: &String) -> (r: Result<Vec<u8>, StorageError>)
        requires
            op.wf(),
        ensures
            r is Ok <==> (op@.contains_key(path@) && op@[path@] is File),
            r matches Ok(data) ==> op@[path@] == EntryV::File(data@),
            r is Err ==> r == Err::<Vec<u8>, StorageError>(
                StorageError::ProtocolTranslationFailed { kind: RejectKind::NotFound },
            ),
    {
        op.read(path)
    }

    /// Open for write: one `write` on the operator, which afterwards binds
    /// exactly this path to exactly these bytes.
    pub fn open_write(&self, op: &mut Operator, path: &String, data: Vec<u8>)
        requires
            old(op).wf(),
        ensures
            final(op).wf(),
            final(op)@ == old(op)@.insert(path@, EntryV::File(data@)),
    {
        op.write(path, data)
    }

    /// Metadata: one `stat` on the operator.
    pub fn stat(&self, op: &Operator, path: &String) -> (r: Result<Metadata, StorageError>)
        requires
            op.wf(),
        ensures
            r is Ok <==> op@.contains_key(path@),
            r matches Ok(m) ==> match op@[path@] {
                EntryV::File(data) => !m.is_dir && m.content_length == data.len(),
                EntryV::Dir => m.is_dir && m.content_length == 0,
            },
            r is Err ==> r == Err::<Metadata, StorageError>(
                StorageError::ProtocolTranslationFailed { kind: RejectKind::NotFound },
            ),
    {
        op.stat(path)
    }

    /// Directory listing: one `list` on the operator; exactly the stored
    /// paths under the given prefix.
    pub fn list(&self, op: &Operator, prefix: &String) -> (r: Vec<String>)
        requires
            op.wf(),
        ensures
            forall|j: int|
                0 <= j < r@.len() ==> #[trigger] op@.contains_key(r@[j]@)
                    && prefix@.is_prefix_of(r@[j]@),
            forall|k: Seq<char>|
                op@.contains_key(k) && #[trigger] prefix@.is_prefix_of(k) ==> exists|j: int|
                    0 <= j < r@.len() && r@[j]@ == k,
    {
        op.list(prefix)
    }

    /// Remove: one `remove` on the operator.
    pub fn remove(&self, op: &mut Operator, path: &String) -> (r: Result<(), StorageError>)
        requires
            old(op).wf(),
        ensures
            final(op).wf(),
            r is Ok <==> old(op)@.contains_key(path@),
            r is Ok ==> final(op)@ == old(op)@.remove(path@),
            r is Err ==> final(op)@ == old(op)@ && r == Err::<(), StorageError>(
                StorageError::ProtocolTranslationFailed { kind: RejectKind::NotFound },
            ),
    {
        op.remove(path)
    }

    /// Create a directory: one `create_dir` on the operator.
    pub fn create_dir(&self, op: &mut Operator, path: &String) -> (r: Result<(), StorageError>)
        requires
            old(op).wf(),
        ensures
            final(op).wf(),
            r is Ok <==> !(old(op)@.contains_key(path@) && old(op)@[path@] is File),
            r is Ok ==> final(op)@ == old(op)@.insert(path@, EntryV::Dir),
            r is Err ==> final(op)@ == old(op)@ && r == Err::<(), StorageError>(
                StorageError::ProtocolTranslationFailed { kind: RejectKind::AlreadyExists },
            ),
    {
        op.create_dir(path)
    }
}

/// Duplicates of one adapter observe each other's writes. An `open_write`
/// through any duplicate takes the shared operator from `st` to
/// `st.insert(path, EntryV::File(data))`; an `open_read` of `path` through
/// any other duplicate then returns exactly `data`, since both duplicates act
/// on the one shared operator value and never on copies of it.
pub proof fn lemma_duplicates_observe_writes(
    st: Map<Seq<char>, EntryV>,
    path: Seq<char>,
    data: Seq<u8>,
)
    ensures
        st.insert(path, EntryV::File(data)).contains_key(path),
        st.insert(path, EntryV::File(data))[path] == EntryV::File(data),
{
}

} // verus!
