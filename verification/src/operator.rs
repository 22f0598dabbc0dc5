//! The shared storage operator: the one backend-selected storage handle every
//! filesystem-adapter duplicate and every writer acts on.
//!
//! The operator is modelled as a finite map from object paths to entries. Its
//! executable shape is an association list with pairwise-distinct keys; its
//! mathematical face is `Map<Seq<char>, EntryV>`, and every operation's
//! contract is stated over that map, so a write made through one holder of
//! the handle is, by the contract itself, what every other holder reads.

use vstd::prelude::*;
use vstd::pervasive::VecAdditionalExecFns;
use vstd::string::StrSliceExecFns;

use crate::error::RejectKind;
use crate::error::StorageError;

verus! {

/// One stored object: a file with its bytes, or a directory marker.
#[derive(Clone, Debug)]
pub enum Entry {
    File(Vec<u8>),
    Dir,
}

/// The mathematical face of an entry.
pub enum EntryV {
    File(Seq<u8>),
    Dir,
}

impl View for Entry {
    type V = EntryV;

    open spec fn view(&self) -> EntryV {
        match self {
            Entry::File(data) => EntryV::File(data@),
            Entry::Dir => EntryV::Dir,
        }
    }
}

/// What `stat` reports of an entry.
#[derive(Clone, Copy, Debug, PartialEq, Eq, Structural)]
pub struct Metadata {
    /// Whether the path names a directory marker.
    pub is_dir: bool,
    /// The stored byte length; zero for a directory.
    pub content_length: usize,
}

/// The keys of an association list are pairwise distinct.
spec fn keys_unique(s: Seq<(String, Entry)>) -> bool {
    forall|i: int, j: int| 0 <= i < j < s.len() ==> s[i].0@ != s[j].0@
}

/// The map an association list denotes, later entries shadowing earlier ones
/// (with `keys_unique` there is nothing to shadow).
spec fn map_of(s: Seq<(String, Entry)>) -> Map<Seq<char>, EntryV>
    decreases s.len(),
{
    if s.len() == 0 {
        Map::empty()
    } else {
        map_of(s.drop_last()).insert(s.last().0@, s.last().1@)
    }
}

proof fn lemma_keys_unique_drop_last(s: Seq<(String, Entry)>)
    requires
        keys_unique(s),
        s.len() > 0,
    ensures
        keys_unique(s.drop_last()),
{
    assert forall|i: int, j: int|
        0 <= i < j < s.drop_last().len() implies s.drop_last()[i].0@ != s.drop_last()[j].0@ by {
        assert(s.drop_last()[i] == s[i]);
        assert(s.drop_last()[j] == s[j]);
    }
}

/// A key under no index is not in the denoted map.
proof fn lemma_map_of_absent(s: Seq<(String, Entry)>, k: Seq<char>)
    requires
        forall|j: int| 0 <= j < s.len() ==> s[j].0@ != k,
    ensures
        !map_of(s).contains_key(k),
    decreases s.len(),
{
    if s.len() > 0 {
        assert(forall|j: int| 0 <= j < s.drop_last().len() ==> s.drop_last()[j] == s[j]);
        lemma_map_of_absent(s.drop_last(), k);
        assert(s.last() == s[s.len() - 1]);
    }
}

/// A key in the denoted map stands under some index.
proof fn lemma_map_of_contains_index(s: Seq<(String, Entry)>, k: Seq<char>)
    requires
        map_of(s).contains_key(k),
    ensures
        exists|i: int| 0 <= i < s.len() && s[i].0@ == k,
{
    if !(exists|i: int| 0 <= i < s.len() && s[i].0@ == k) {
        lemma_map_of_absent(s, k);
        assert(false);
    }
}

/// With distinct keys, the entry under index `i` is what the denoted map
/// holds at its key.
proof fn lemma_map_of_index(s: Seq<(String, Entry)>, i: int)
    requires
        keys_unique(s),
        0 <= i < s.len(),
    ensures
        map_of(s).contains_key(s[i].0@),
        map_of(s)[s[i].0@] == s[i].1@,
    decreases s.len(),
{
    if i == s.len() - 1 {
        assert(s.last() == s[i]);
    } else {
        lemma_keys_unique_drop_last(s);
        lemma_map_of_index(s.drop_last(), i);
        assert(s.drop_last()[i] == s[i]);
        assert(s[i].0@ != s[s.len() - 1].0@);
        assert(s.last() == s[s.len() - 1]);
    }
}

/// Appending a fresh pair denotes an insertion.
proof fn lemma_map_of_push(s: Seq<(String, Entry)>, p: (String, Entry))
    ensures
        map_of(s.push(p)) == map_of(s).insert(p.0@, p.1@),
{
    assert(s.push(p).drop_last() =~= s);
    assert(s.push(p).last() == p);
}

/// Replacing the pair under `i` by one with the same key denotes an
/// insertion at that key, and keeps the keys distinct.
proof fn lemma_map_of_update(s: Seq<(String, Entry)>, i: int, p: (String, Entry))
    requires
        keys_unique(s),
        0 <= i < s.len(),
        p.0@ == s[i].0@,
    ensures
        map_of(s.update(i, p)) == map_of(s).insert(p.0@, p.1@),
        keys_unique(s.update(i, p)),
    decreases s.len(),
{
    let t = s.update(i, p);
    assert forall|a: int, b: int| 0 <= a < b < t.len() implies t[a].0@ != t[b].0@ by {
        if a != i && b != i {
            assert(t[a] == s[a]);
            assert(t[b] == s[b]);
        }
    }
    if i == s.len() - 1 {
        assert(t.drop_last() =~= s.drop_last());
        assert(t.last() == p);
        assert(s.last() == s[i]);
        assert(map_of(t) =~= map_of(s).insert(p.0@, p.1@));
    } else {
        lemma_keys_unique_drop_last(s);
        assert(s.drop_last()[i] == s[i]);
        lemma_map_of_update(s.drop_last(), i, p);
        assert(t.drop_last() =~= s.drop_last().update(i, p));
        assert(t.last() == s.last());
        assert(s.last() == s[s.len() - 1]);
        assert(s[i].0@ != s[s.len() - 1].0@);
        assert(map_of(t) =~= map_of(s).insert(p.0@, p.1@));
    }
}

/// Removing the pair under `i` denotes a removal of its key, and keeps the
/// keys distinct.
proof fn lemma_map_of_remove_at(s: Seq<(String, Entry)>, i: int)
    requires
        keys_unique(s),
        0 <= i < s.len(),
    ensures
        map_of(s.remove(i)) == map_of(s).remove(s[i].0@),
        keys_unique(s.remove(i)),
    decreases s.len(),
{
    let t = s.remove(i);
    s.remove_ensures(i);
    assert forall|a: int, b: int| 0 <= a < b < t.len() implies t[a].0@ != t[b].0@ by {
        let sa: int = if a < i { a } else { a + 1 };
        let sb: int = if b < i { b } else { b + 1 };
        assert(t[a] == s[sa]);
        assert(t[b] == s[sb]);
    }
    if i == s.len() - 1 {
        assert(t =~= s.drop_last());
        lemma_keys_unique_drop_last(s);
        assert(forall|j: int| 0 <= j < t.len() ==> t[j] == s[j]);
        assert(forall|j: int| 0 <= j < t.len() ==> s[j].0@ != s[i].0@);
        lemma_map_of_absent(t, s[i].0@);
        assert(s.last() == s[i]);
        assert(map_of(t) =~= map_of(s).remove(s[i].0@));
    } else {
        lemma_keys_unique_drop_last(s);
        assert(s.drop_last()[i] == s[i]);
        lemma_map_of_remove_at(s.drop_last(), i);
        assert(t.drop_last() =~= s.drop_last().remove(i));
        assert(t.last() == s.last());
        assert(s.last() == s[s.len() - 1]);
        assert(s[i].0@ != s[s.len() - 1].0@);
        assert(map_of(t) =~= map_of(s).remove(s[i].0@));
    }
}

/// A key the denoted map lacks stands under no index.
proof fn lemma_absent_index(s: Seq<(String, Entry)>, k: Seq<char>)
    requires
        keys_unique(s),
        !map_of(s).contains_key(k),
    ensures
        forall|j: int| 0 <= j < s.len() ==> s[j].0@ != k,
{
    assert forall|j: int| 0 <= j < s.len() implies s[j].0@ != k by {
        if s[j].0@ == k {
            lemma_map_of_index(s, j);
        }
    }
}

/// Appending a pair with a fresh key keeps the keys distinct.
proof fn lemma_keys_unique_push(s: Seq<(String, Entry)>, p: (String, Entry))
    requires
        keys_unique(s),
        forall|j: int| 0 <= j < s.len() ==> s[j].0@ != p.0@,
    ensures
        keys_unique(s.push(p)),
{
    let t = s.push(p);
    assert forall|a: int, b: int| 0 <= a < b < t.len() implies t[a].0@ != t[b].0@ by {
        assert(t[a] == s[a]);
        if b == t.len() - 1 {
            assert(t[b] == p);
        } else {
            assert(t[b] == s[b]);
        }
    }
}

/// Copy a byte buffer; the copy shows the same bytes.
fn clone_bytes(v: &Vec<u8>) -> (r: Vec<u8>)
    ensures
        r@ == v@,
{
    let r = v.clone();
    proof {
        assert forall|i: int| 0 <= i < v@.len() implies r@[i] == v@[i] by {
            assert(cloned::<u8>(v@[i], r@[i]));
        }
        assert(r@ =~= v@);
    }
    r
}

/// Whether `p` spells out the first characters of `s`.
fn has_prefix(s: &String, p: &String) -> (r: bool)
    ensures
        r == p@.is_prefix_of(s@),
{
    let sl = s.as_str().unicode_len();
    let pl = p.as_str().unicode_len();
    if pl > sl {
        assert(!p@.is_prefix_of(s@));
        return false;
    }
    let mut i: usize = 0;
    while i < pl
        invariant
            0 <= i <= pl,
            pl <= sl,
            pl == p@.len(),
            sl == s@.len(),
            forall|j: int| 0 <= j < i ==> s@[j] == p@[j],
        decreases pl - i,
    {
        if s.as_str().get_char(i) != p.as_str().get_char(i) {
            proof {
                assert(s@.subrange(0, pl as int)[i as int] != p@[i as int]);
            }
            return false;
        }
        i += 1;
    }
    proof {
        assert(s@.subrange(0, pl as int) =~= p@);
    }
    true
}

/// The storage handle: one shared, backend-selected store of objects. All
/// holders of the handle act on this one value; its view is the map of what
/// is stored.
#[derive(Clone, Debug)]
pub struct Operator {
    entries: Vec<(String, Entry)>,
}

impl View for Operator {
    type V = Map<Seq<char>, EntryV>;

    closed spec fn view(&self) -> Map<Seq<char>, EntryV> {
        map_of(self.entries@)
    }
}

impl Operator {
    /// Well-formed: no path is stored twice.
    pub closed spec fn wf(&self) -> bool {
        keys_unique(self.entries@)
    }

    /// An empty store.
    pub fn new() -> (op: Operator)
        ensures
            op.wf(),
            op@ == Map::<Seq<char>, EntryV>::empty(),
    {
        let op = Operator { entries: Vec::new() };
        proof {
            assert(op@ =~= Map::<Seq<char>, EntryV>::empty());
        }
        op
    }

    /// The index holding `path`, if any.
    fn find(&self, path: &String) -> (r: Option<usize>)
        requires
            self.wf(),
        ensures
            match r {
                Some(i) => i < self.entries@.len() && self.entries@[i as int].0@ == path@
                    && self@.contains_key(path@) && self@[path@] == self.entries@[i as int].1@,
                None => !self@.contains_key(path@),
            },
    {
        let mut i: usize = 0;
        while i < self.entries.len()
            invariant
                self.wf(),
                0 <= i <= self.entries@.len(),
                forall|j: int| 0 <= j < i ==> self.entries@[j].0@ != path@,
            decreases self.entries@.len() - i,
        {
            if self.entries[i].0 == *path {
                proof {
                    lemma_map_of_index(self.entries@, i as int);
                }
                return Some(i);
            }
            i += 1;
        }
        proof {
            lemma_map_of_absent(self.entries@, path@);
        }
        None
    }

    /// Read the bytes stored at `path`. Succeeds exactly where the store
    /// holds a file at `path`, and returns exactly its bytes; a missing path
    /// or a directory is a not-found translation failure.
    pub fn read(&self, path: &String) -> (r: Result<Vec<u8>, StorageError>)
        requires
            self.wf(),
        ensures
            r is Ok <==> (self@.contains_key(path@) && self@[path@] is File),
            r matches Ok(data) ==> self@[path@] == EntryV::File(data@),
            r is Err ==> r == Err::<Vec<u8>, StorageError>(
                StorageError::ProtocolTranslationFailed { kind: RejectKind::NotFound },
            ),
    {
        match self.find(path) {
            Some(i) => {
                match &self.entries[i].1 {
                    Entry::File(data) => Ok(clone_bytes(data)),
                    Entry::Dir => Err(
                        StorageError::ProtocolTranslationFailed { kind: RejectKind::NotFound },
                    ),
                }
            },
            None => Err(StorageError::ProtocolTranslationFailed { kind: RejectKind::NotFound }),
        }
    }

    /// Store `data` at `path`, replacing whatever was there. Always succeeds;
    /// the store afterwards is the store before with exactly this one path
    /// bound to exactly these bytes.
    pub fn write(&mut self, path: &String, data: Vec<u8>)
        requires
            old(self).wf(),
        ensures
            final(self).wf(),
            final(self)@ == old(self)@.insert(path@, EntryV::File(data@)),
    {
        let entry = Entry::File(data);
        match self.find(path) {
            Some(i) => {
                let pair = (path.clone(), entry);
                proof {
                    lemma_map_of_update(self.entries@, i as int, pair);
                }
                self.entries.set(i, pair);
            },
            None => {
                let pair = (path.clone(), entry);
                proof {
                    lemma_absent_index(self.entries@, path@);
                    lemma_keys_unique_push(self.entries@, pair);
                    lemma_map_of_push(self.entries@, pair);
                }
                self.entries.push(pair);
            },
        }
    }

    /// Report what is stored at `path`: a directory marker, or a file and its
    /// byte length. Succeeds exactly where the path is stored.
    pub fn stat(&self, path: &String) -> (r: Result<Metadata, StorageError>)
        requires
            self.wf(),
        ensures
            r is Ok <==> self@.contains_key(path@),
            r matches Ok(m) ==> match self@[path@] {
                EntryV::File(data) => !m.is_dir && m.content_length == data.len(),
                EntryV::Dir => m.is_dir && m.content_length == 0,
            },
            r is Err ==> r == Err::<Metadata, StorageError>(
                StorageError::ProtocolTranslationFailed { kind: RejectKind::NotFound },
            ),
    {
        match self.find(path) {
            Some(i) => {
                match &self.entries[i].1 {
                    Entry::File(data) => Ok(
                        Metadata { is_dir: false, content_length: data.len() },
                    ),
                    Entry::Dir => Ok(Metadata { is_dir: true, content_length: 0 }),
                }
            },
            None => Err(StorageError::ProtocolTranslationFailed { kind: RejectKind::NotFound }),
        }
    }

    /// Remove what is stored at `path`. Succeeds exactly where the path was
    /// stored, and then unbinds exactly that path; a missing path is a
    /// not-found translation failure and changes nothing.
    pub fn remove(&mut self, path: &String) -> (r: Result<(), StorageError>)
        requires
            old(self).wf(),
        ensures
            final(self).wf(),
            r is Ok <==> old(self)@.contains_key(path@),
            r is Ok ==> final(self)@ == old(self)@.remove(path@),
            r is Err ==> final(self)@ == old(self)@ && r == Err::<(), StorageError>(
                StorageError::ProtocolTranslationFailed { kind: RejectKind::NotFound },
            ),
    {
        match self.find(path) {
            Some(i) => {
                proof {
                    lemma_map_of_remove_at(self.entries@, i as int);
                }
                let _ = self.entries.remove(i);
                Ok(())
            },
            None => Err(StorageError::ProtocolTranslationFailed { kind: RejectKind::NotFound }),
        }
    }

    /// Mark `path` as a directory. Fails with an already-exists translation
    /// failure where a file occupies the path; otherwise the path is bound to
    /// a directory marker (anew or still).
    pub fn create_dir(&mut self, path: &String) -> (r: Result<(), StorageError>)
        requires
            old(self).wf(),
        ensures
            final(self).wf(),
            r is Ok <==> !(old(self)@.contains_key(path@) && old(self)@[path@] is File),
            r is Ok ==> final(self)@ == old(self)@.insert(path@, EntryV::Dir),
            r is Err ==> final(self)@ == old(self)@ && r == Err::<(), StorageError>(
                StorageError::ProtocolTranslationFailed { kind: RejectKind::AlreadyExists },
            ),
    {
        match self.find(path) {
            Some(i) => {
                match &self.entries[i].1 {
                    Entry::File(_) => Err(
                        StorageError::ProtocolTranslationFailed {
                            kind: RejectKind::AlreadyExists,
                        },
                    ),
                    Entry::Dir => {
                        proof {
                            assert(old(self)@ =~= old(self)@.insert(path@, EntryV::Dir));
                        }
                        Ok(())
                    },
                }
            },
            None => {
                let pair = (path.clone(), Entry::Dir);
                proof {
                    lemma_absent_index(self.entries@, path@);
                    lemma_keys_unique_push(self.entries@, pair);
                    lemma_map_of_push(self.entries@, pair);
                }
                self.entries.push(pair);
                Ok(())
            },
        }
    }

    /// List the stored paths that begin with `prefix`: each returned path is
    /// stored and carries the prefix, and every stored path carrying the
    /// prefix is returned.
    pub fn list(&self, prefix: &String) -> (r: Vec<String>)
        requires
            self.wf(),
        ensures
            forall|j: int|
                0 <= j < r@.len() ==> #[trigger] self@.contains_key(r@[j]@)
                    && prefix@.is_prefix_of(r@[j]@),
            forall|k: Seq<char>|
                self@.contains_key(k) && #[trigger] prefix@.is_prefix_of(k) ==> exists|j: int|
                    0 <= j < r@.len() && r@[j]@ == k,
    {
        let mut r: Vec<String> = Vec::new();
        let mut i: usize = 0;
        while i < self.entries.len()
            invariant
                self.wf(),
                0 <= i <= self.entries@.len(),
                forall|j: int| #![trigger r@[j]]
                    0 <= j < r@.len() ==> exists|e: int|
                        0 <= e < self.entries@.len() && r@[j]@ == #[trigger] self.entries@[e].0@
                            && prefix@.is_prefix_of(r@[j]@),
                forall|e: int|
                    0 <= e < i && prefix@.is_prefix_of(#[trigger] self.entries@[e].0@)
                        ==> exists|j: int| 0 <= j < r@.len() && r@[j]@ == self.entries@[e].0@,
            decreases self.entries@.len() - i,
        {
            if has_prefix(&self.entries[i].0, prefix) {
                let ghost r_old = r@;
                let key = self.entries[i].0.clone();
                r.push(key);
                proof {
                    assert(r@[r@.len() - 1]@ == self.entries@[i as int].0@);
                    assert forall|j: int| #![trigger r@[j]]
                        0 <= j < r@.len() implies exists|e: int|
                            0 <= e < self.entries@.len()
                                && r@[j]@ == #[trigger] self.entries@[e].0@
                                && prefix@.is_prefix_of(r@[j]@) by {
                        if j < r@.len() - 1 {
                            assert(r@[j] == r_old[j]);
                            let e = choose|e: int|
                                0 <= e < self.entries@.len()
                                    && r_old[j]@ == #[trigger] self.entries@[e].0@
                                    && prefix@.is_prefix_of(r_old[j]@);
                            assert(r@[j]@ == self.entries@[e].0@);
                        } else {
                            assert(r@[j]@ == self.entries@[i as int].0@);
                        }
                    }
                    assert forall|e: int|
                        0 <= e < i + 1 && prefix@.is_prefix_of(#[trigger] self.entries@[e].0@)
                            implies exists|j: int|
                                0 <= j < r@.len() && r@[j]@ == self.entries@[e].0@ by {
                        if e < i {
                            let j = choose|j: int|
                                0 <= j < r_old.len() && r_old[j]@ == self.entries@[e].0@;
                            assert(r@[j] == r_old[j]);
                            assert(0 <= j < r@.len() && r@[j]@ == self.entries@[e].0@);
                        } else {
                            assert(r@[r@.len() - 1]@ == self.entries@[e].0@);
                        }
                    }
                }
            } else {
                proof {
                    assert forall|e: int|
                        0 <= e < i + 1 && prefix@.is_prefix_of(#[trigger] self.entries@[e].0@)
                            implies exists|j: int|
                                0 <= j < r@.len() && r@[j]@ == self.entries@[e].0@ by {
                        assert(e < i);
                    }
                }
            }
            i += 1;
        }
        proof {
            assert forall|j: int|
                0 <= j < r@.len() implies self@.contains_key(r@[j]@)
                    && prefix@.is_prefix_of(r@[j]@) by {
                let e = choose|e: int|
                    0 <= e < self.entries@.len() && r@[j]@ == self.entries@[e].0@
                        && prefix@.is_prefix_of(r@[j]@);
                lemma_map_of_index(self.entries@, e);
            }
            assert forall|k: Seq<char>|
                self@.contains_key(k) && #[trigger] prefix@.is_prefix_of(k) implies exists|j: int|
                    0 <= j < r@.len() && r@[j]@ == k by {
                lemma_map_of_contains_index(self.entries@, k);
                let e = choose|e: int| 0 <= e < self.entries@.len() && self.entries@[e].0@ == k;
                assert(prefix@.is_prefix_of(self.entries@[e].0@));
            }
        }
        r
    }
}

} // verus!
