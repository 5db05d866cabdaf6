//! The validated document store: a per-DID cache of chain-validated
//! document histories with a latest-version pointer.
//!
//! The store accepts a document only into the next free version slot of its
//! DID, and only after the chain rules have passed against the currently
//! stored latest version, so everything it holds is a valid prefix of some
//! microledger.  Exclusive access through `&mut` is what serializes writers
//! per store; persistence backends sit outside the crate and replay into
//! this structure.

use vstd::prelude::*;
use crate::document::{Did, DidDocument, DocumentView};
use crate::errors::StoreError;
use crate::validate::{chain_ok, prev_of, validate_next, validates};

verus! {

/// Whether a history `docs` of `did` may grow by `doc`: the chain rules
/// pass against the last element (which forces the next free version
/// slot), and a root document carries the hash the DID's self-certifying
/// root names.
pub open spec fn accepts_next(did: Did, docs: Seq<DocumentView>, doc: DocumentView) -> bool {
    &&& validates(prev_of(docs, docs.len() as int), doc)
    &&& (docs.len() == 0 ==> doc.self_hash == did.root)
}

/// The stored history of one DID.
pub struct StoreEntry {
    pub did: Did,
    pub docs: Vec<DidDocument>,
}

/// An in-memory validated document store.
pub struct DocumentStore {
    pub entries: Vec<StoreEntry>,
}

impl DocumentStore {
    /// Some entry holds this DID.
    pub open spec fn has_did(self, did: Did) -> bool {
        exists|i: int| 0 <= i < self.entries@.len() && self.entries@[i].did == did
    }

    /// The index of this DID's entry; meaningful only when `has_did`.
    pub open spec fn idx_of(self, did: Did) -> int {
        choose|i: int| 0 <= i < self.entries@.len() && self.entries@[i].did == did
    }

    /// The stored document history of a DID, oldest first, as views; empty
    /// when the store has never accepted a document for it.
    pub open spec fn docs_of(self, did: Did) -> Seq<DocumentView> {
        if self.has_did(did) {
            self.entries@[self.idx_of(did)].docs.deep_view()
        } else {
            Seq::empty()
        }
    }

    /// The latest stored version number of a DID; 0 when none is stored.
    /// In a well-formed store the stored versions are exactly 1 up to this.
    pub open spec fn latest_of(self, did: Did) -> int {
        self.docs_of(did).len() as int
    }

    /// Store invariant: entries name distinct DIDs, each entry is a
    /// non-empty chain-valid history, and each history's root document is
    /// the one the DID's self-certifying root names.
    pub open spec fn wf(self) -> bool {
        &&& forall|i: int, j: int|
            0 <= i < j < self.entries@.len() ==> self.entries@[i].did != self.entries@[j].did
        &&& forall|i: int|
            0 <= i < self.entries@.len() ==> chain_ok(#[trigger] self.entries@[i].docs.deep_view())
        &&& forall|i: int| 0 <= i < self.entries@.len() ==> self.entries@[i].docs@.len() > 0
        &&& forall|i: int|
            0 <= i < self.entries@.len() ==> (#[trigger] self.entries@[i].docs@)[0].self_hash
                == self.entries@[i].did.root
    }

    /// An empty store.
    pub fn new() -> (s: DocumentStore)
        ensures
            s.wf(),
            s.entries@.len() == 0,
            forall|did: Did| s.docs_of(did) =~= Seq::<DocumentView>::empty(),
    {
        DocumentStore { entries: Vec::new() }
    }

    /// An entry index with this DID, if one exists.
    fn find_entry(&self, did: Did) -> (r: Option<usize>)
        ensures
            match r {
                Some(i) => i < self.entries@.len() && self.entries@[i as int].did == did,
                None => !self.has_did(did),
            },
    {
        let mut i: usize = 0;
        while i < self.entries.len()
            invariant
                i <= self.entries@.len(),
                forall|k: int| 0 <= k < i ==> self.entries@[k].did != did,
            decreases self.entries.len() - i,
        {
            if self.entries[i].did == did {
                return Some(i);
            }
            i = i + 1;
        }
        None
    }

    /// In a well-formed store, an entry index holding `did` is the index
    /// `docs_of` reads.
    proof fn lemma_idx(self, did: Did, i: int)
        requires
            self.wf(),
            0 <= i < self.entries@.len(),
            self.entries@[i].did == did,
        ensures
            self.has_did(did),
            self.idx_of(did) == i,
            self.docs_of(did) == self.entries@[i].docs.deep_view(),
    {
        assert(self.has_did(did));
        let j = self.idx_of(did);
        assert(0 <= j < self.entries@.len() && self.entries@[j].did == did);
        if i < j {
            assert(self.entries@[i].did != self.entries@[j].did);
        } else if j < i {
            assert(self.entries@[j].did != self.entries@[i].did);
        }
    }

    /// The latest stored version of a DID, or `None` when the store holds
    /// nothing for it.
    pub fn latest_version(&self, did: Did) -> (r: Option<u64>)
        requires
            self.wf(),
        ensures
            r == (if self.latest_of(did) == 0 {
                None::<u64>
            } else {
                Some(self.latest_of(did) as u64)
            }),
            self.latest_of(did) <= usize::MAX,
    {
        match self.find_entry(did) {
            Some(i) => {
                proof {
                    self.lemma_idx(did, i as int);
                }
                Some(self.entries[i].docs.len() as u64)
            },
            None => None,
        }
    }

    /// The stored document with this version number, or `None` when the
    /// store does not hold it.  Versions count from 1.
    pub fn get(&self, did: Did, version_id: u64) -> (r: Option<DidDocument>)
        requires
            self.wf(),
        ensures
            match r {
                Some(doc) => 1 <= version_id <= self.latest_of(did) && doc@ == self.docs_of(did)[
                    version_id - 1
                ],
                None => !(1 <= version_id <= self.latest_of(did)),
            },
    {
        match self.find_entry(did) {
            Some(i) => {
                proof {
                    self.lemma_idx(did, i as int);
                }
                let entry_docs = &self.entries[i].docs;
                if 1 <= version_id && version_id <= entry_docs.len() as u64 {
                    Some(entry_docs[(version_id - 1) as usize].clone())
                } else {
                    None
                }
            },
            None => None,
        }
    }

    /// A copy of the whole stored history of a DID, oldest first; empty
    /// when the store holds nothing for it.
    pub fn get_all(&self, did: Did) -> (r: Vec<DidDocument>)
        requires
            self.wf(),
        ensures
            r.deep_view() =~= self.docs_of(did),
    {
        match self.find_entry(did) {
            Some(i) => {
                proof {
                    self.lemma_idx(did, i as int);
                }
                let mut out: Vec<DidDocument> = Vec::new();
                let entry_docs = &self.entries[i].docs;
                let mut k: usize = 0;
                while k < entry_docs.len()
                    invariant
                        k <= entry_docs@.len(),
                        out@.len() == k,
                        forall|j: int| 0 <= j < k ==> (#[trigger] out@[j])@ == entry_docs@[j]@,
                    decreases entry_docs.len() - k,
                {
                    out.push(entry_docs[k].clone());
                    k = k + 1;
                }
                proof {
                    assert(out.deep_view() =~= entry_docs.deep_view());
                }
                out
            },
            None => Vec::new(),
        }
    }

    /// Whether the store would accept `doc` for `did` right now.
    pub open spec fn accepts(self, did: Did, doc: DocumentView) -> bool {
        accepts_next(did, self.docs_of(did), doc)
    }

    /// Inserts a document that the caller has already run through the chain
    /// validator, into the next free version slot of its DID.  Out-of-order
    /// and duplicate inserts, lost races, and documents that do not extend
    /// the stored chain are all rejected with `SequenceConflict`, and the
    /// store is left unchanged.
    pub fn put_validated(&mut self, did: Did, doc: DidDocument) -> (r: Result<(), StoreError>)
        requires
            old(self).wf(),
        ensures
            final(self).wf(),
            r is Ok <==> old(self).accepts(did, doc@),
            r is Ok ==> final(self).docs_of(did) =~= old(self).docs_of(did).push(doc@),
            r is Err ==> *final(self) == *old(self) && r == Err::<(), StoreError>(
                StoreError::SequenceConflict,
            ),
            forall|other: Did|
                other != did ==> #[trigger] final(self).docs_of(other) == old(self).docs_of(other),
    {
        match self.find_entry(did) {
            Some(i) => {
                proof {
                    self.lemma_idx(did, i as int);
                    assert(self.entries@[i as int].docs@.len() > 0);
                }
                let verdict = {
                    let entry_docs = &self.entries[i].docs;
                    validate_next(Some(&entry_docs[entry_docs.len() - 1]), &doc)
                };
                proof {
                    let docs = old(self).docs_of(did);
                    assert(docs.last() == old(self).entries@[i as int].docs@[docs.len() - 1]@);
                    assert(prev_of(docs, docs.len() as int) == Some(docs.last()));
                }
                if verdict.is_err() {
                    return Err(StoreError::SequenceConflict);
                }
                let mut entry = self.entries.remove(i);
                entry.docs.push(doc);
                let ghost new_entry = entry;
                self.entries.insert(i, entry);
                proof {
                    assert(self.entries@ =~= old(self).entries@.update(i as int, new_entry));
                    assert(new_entry.docs.deep_view() =~= old(self).docs_of(did).push(doc@));
                    crate::validate::lemma_chain_push(old(self).docs_of(did), doc@);
                    assert(self.wf());
                    self.lemma_idx(did, i as int);
                    assert forall|other: Did| other != did implies #[trigger] self.docs_of(other)
                        == old(self).docs_of(other) by {
                        self.lemma_docs_unchanged(*old(self), i as int, other);
                    }
                }
                Ok(())
            },
            None => {
                let verdict = validate_next(None, &doc);
                if verdict.is_err() {
                    return Err(StoreError::SequenceConflict);
                }
                if doc.self_hash != did.root {
                    return Err(StoreError::SequenceConflict);
                }
                let ghost old_len = self.entries@.len();
                let ghost doc_view = doc@;
                let mut docs: Vec<DidDocument> = Vec::new();
                docs.push(doc);
                let entry = StoreEntry { did, docs };
                self.entries.push(entry);
                proof {
                    assert(self.entries@[old_len as int].docs.deep_view() =~= seq![doc_view]);
                    assert(chain_ok(seq![doc_view])) by {
                        assert(prev_of(seq![doc_view], 0) is None);
                    }
                    assert(self.wf());
                    self.lemma_idx(did, old_len as int);
                    assert forall|other: Did| other != did implies #[trigger] self.docs_of(other)
                        == old(self).docs_of(other) by {
                        self.lemma_docs_unchanged_appended(*old(self), other);
                    }
                    assert(self.docs_of(did) =~= old(self).docs_of(did).push(doc_view));
                }
                Ok(())
            },
        }
    }

    /// Entries other than the one at `i` are untouched by an update at `i`,
    /// so every other DID's history reads the same.
    proof fn lemma_docs_unchanged(self, prior: DocumentStore, i: int, other: Did)
        requires
            prior.wf(),
            0 <= i < prior.entries@.len(),
            self.entries@.len() == prior.entries@.len(),
            self.entries@[i].did == prior.entries@[i].did,
            other != prior.entries@[i].did,
            forall|k: int|
                0 <= k < prior.entries@.len() && k != i ==> self.entries@[k] == prior.entries@[k],
        ensures
            self.docs_of(other) == prior.docs_of(other),
    {
        if self.has_did(other) {
            let j = self.idx_of(other);
            assert(j != i);
            assert(prior.entries@[j].did == other);
            assert(prior.has_did(other));
            let k = prior.idx_of(other);
            assert(prior.entries@[k].did == other);
            if j < k {
                assert(prior.entries@[j].did != prior.entries@[k].did);
            } else if k < j {
                assert(prior.entries@[k].did != prior.entries@[j].did);
            }
        } else if prior.has_did(other) {
            let k = prior.idx_of(other);
            assert(k != i);
            assert(self.entries@[k].did == other);
        }
    }

    /// Appending a fresh entry leaves every previously resolvable DID's
    /// history the same.
    proof fn lemma_docs_unchanged_appended(self, prior: DocumentStore, other: Did)
        requires
            prior.wf(),
            self.entries@.len() == prior.entries@.len() + 1,
            forall|k: int| 0 <= k < prior.entries@.len() ==> self.entries@[k] == prior.entries@[k],
            other != self.entries@[prior.entries@.len() as int].did,
        ensures
            self.docs_of(other) == prior.docs_of(other),
    {
        if self.has_did(other) {
            let j = self.idx_of(other);
            assert(self.entries@[j].did == other);
            assert(j < prior.entries@.len());
            assert(prior.entries@[j].did == other);
            assert(prior.has_did(other));
            let k = prior.idx_of(other);
            if j < k {
                assert(prior.entries@[j].did != prior.entries@[k].did);
            } else if k < j {
                assert(prior.entries@[k].did != prior.entries@[j].did);
            }
        } else if prior.has_did(other) {
            let k = prior.idx_of(other);
            assert(self.entries@[k].did == other);
        }
    }
}

} // verus!
