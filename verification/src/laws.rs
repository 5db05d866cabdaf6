//! The engine's global guarantees, stated and proved as lemmas over the
//! same specifications the executable functions' contracts use.

use vstd::prelude::*;
use crate::document::{digest_of, hash_ok, Did, DocumentView};
use crate::errors::{SubmitError, ValidationError};
use crate::hash::signature_words;
use crate::registry::submit_rejection;
use crate::resolver::{good_len, selected_index, Selector};
use crate::store::{accepts_next, DocumentStore};
use crate::validate::{chain_ok, lemma_chain_versions, prev_of, validation_outcome};

verus! {

/// A valid microledger — every version signed with an update key of its
/// predecessor and rooted in the DID's self-certifying hash — is accepted
/// in full by the full resolver starting from an empty history, and
/// resolving `Latest` afterwards picks its newest version, whose version
/// number is the microledger's length.
pub proof fn lemma_valid_chain_resolves(did: Did, docs: Seq<DocumentView>)
    requires
        chain_ok(docs),
        docs.len() > 0,
        docs[0].self_hash == did.root,
    ensures
        good_len(did, Seq::empty(), docs) == docs.len(),
        selected_index(docs, Selector::Latest) == Some(docs.len() - 1),
        docs.last().version_id == docs.len(),
{
    assert forall|k: int| 0 <= k < docs.len() implies accepts_next(
        did,
        Seq::<DocumentView>::empty() + docs.take(k),
        #[trigger] docs[k],
    ) by {
        assert(Seq::<DocumentView>::empty() + docs.take(k) =~= docs.take(k));
        assert(docs.take(k).len() == k);
        if k > 0 {
            assert(docs.take(k)[k - 1] == docs[k - 1]);
        }
        assert(prev_of(docs.take(k), k) == prev_of(docs, k));
    }
    crate::resolver::lemma_good_len(did, Seq::empty(), docs, docs.len() as int);
    lemma_chain_versions(docs, docs.len() - 1);
}

/// A document whose declared `self_hash` is not its recomputed content
/// hash — any content tampering that leaves the declared hash behind, or
/// any tampering with the hash itself — is rejected as `HashMismatch`,
/// whatever its predecessor.
pub proof fn lemma_tampered_hash_rejected(prev: Option<DocumentView>, c: DocumentView)
    requires
        c.self_hash != digest_of(c),
    ensures
        validation_outcome(prev, c) == Some(ValidationError::HashMismatch),
{
}

/// A hash-consistent document whose version number does not continue its
/// predecessor by one — reused or skipped — is rejected as
/// `SequenceError`.
pub proof fn lemma_wrong_version_rejected(p: DocumentView, c: DocumentView)
    requires
        hash_ok(c),
        c.version_id != p.version_id + 1,
    ensures
        validation_outcome(Some(p), c) == Some(ValidationError::SequenceError),
{
}

/// A hash-consistent, well-sequenced document that does not name its
/// predecessor's `self_hash` is rejected as `BrokenChain`.
pub proof fn lemma_broken_link_rejected(p: DocumentView, c: DocumentView)
    requires
        hash_ok(c),
        c.version_id == p.version_id + 1,
        c.prev_document_hash != Some(p.self_hash),
    ensures
        validation_outcome(Some(p), c) == Some(ValidationError::BrokenChain),
{
}

/// A correctly linked document whose `valid_from` does not strictly
/// increase is rejected as `TemporalViolation`.
pub proof fn lemma_stale_time_rejected(p: DocumentView, c: DocumentView)
    requires
        hash_ok(c),
        c.version_id == p.version_id + 1,
        c.prev_document_hash == Some(p.self_hash),
        c.valid_from <= p.valid_from,
    ensures
        validation_outcome(Some(p), c) == Some(ValidationError::TemporalViolation),
{
}

/// A correctly linked and timed document whose signer holds no update key
/// of the predecessor is rejected as `UnauthorizedSigner`.
pub proof fn lemma_unauthorized_signer_rejected(p: DocumentView, c: DocumentView)
    requires
        hash_ok(c),
        c.version_id == p.version_id + 1,
        c.prev_document_hash == Some(p.self_hash),
        c.valid_from > p.valid_from,
        !p.update_key_ids.contains(c.signer_key_id),
    ensures
        validation_outcome(Some(p), c) == Some(ValidationError::UnauthorizedSigner),
{
}

/// An otherwise-valid document whose signature is not the one its declared
/// signer produces over its content hash is rejected as `BadSignature`.
pub proof fn lemma_forged_signature_rejected(p: DocumentView, c: DocumentView)
    requires
        hash_ok(c),
        c.version_id == p.version_id + 1,
        c.prev_document_hash == Some(p.self_hash),
        c.valid_from > p.valid_from,
        p.update_key_ids.contains(c.signer_key_id),
        c.signature != signature_words(c.signer_key_id, digest_of(c)),
    ensures
        validation_outcome(Some(p), c) == Some(ValidationError::BadSignature),
{
}

/// A rejected document never lets anything after it into the store: the
/// history grows by exactly the accepted prefix of the fetched batch, so
/// nothing at or beyond the first failure is stored.
pub proof fn lemma_nothing_stored_past_failure(
    did: Did,
    docs: Seq<DocumentView>,
    fetched: Seq<DocumentView>,
    k: int,
)
    requires
        0 <= k < fetched.len(),
        !accepts_next(did, docs + fetched.take(k), fetched[k]),
    ensures
        good_len(did, docs, fetched) <= k,
    decreases k,
{
    if k == 0 {
        assert(docs + fetched.take(0) =~= docs);
    } else {
        if accepts_next(did, docs, fetched[0]) {
            let docs2 = docs.push(fetched[0]);
            let rest = fetched.drop_first();
            assert(docs2 + rest.take(k - 1) =~= docs + fetched.take(k));
            assert(rest[k - 1] == fetched[k]);
            lemma_nothing_stored_past_failure(did, docs2, rest, k - 1);
        } else {
            assert(docs + fetched.take(0) =~= docs);
            assert(good_len(did, docs, fetched) == 0);
        }
    }
}

/// Resolving with nothing newly fetched is a pure read: the answer is the
/// function of the stored history and the selector that the full
/// resolver's contract names, so asking twice returns the same document
/// and writes nothing either time.
pub proof fn lemma_resolution_idempotent(
    before: DocumentStore,
    after: DocumentStore,
    did: Did,
    selector: Selector,
)
    requires
        before.docs_of(did) == after.docs_of(did),
    ensures
        selected_index(before.docs_of(did), selector) == selected_index(
            after.docs_of(did),
            selector,
        ),
        good_len(did, before.docs_of(did), Seq::empty()) == 0,
{
}

/// An explicit version the store already holds is answered from the store:
/// no fetch is needed, and the selector picks exactly the stored slot.
pub proof fn lemma_local_version_is_cache_hit(store: DocumentStore, did: Did, v: u64)
    requires
        store.wf(),
        1 <= v <= store.latest_of(did),
    ensures
        selected_index(store.docs_of(did), Selector::Version(v)) == Some(v - 1),
{
}

/// Of two candidates racing for the same version slot of one DID, the one
/// the registry sees second finds the slot already filled and receives a
/// sequence conflict, whatever its content.
pub proof fn lemma_losing_submission_conflicts(
    registry: DocumentStore,
    did: Did,
    winner: DocumentView,
    loser: DocumentView,
)
    requires
        registry.wf(),
        registry.docs_of(did).len() > 0,
        registry.docs_of(did).last() == winner,
        loser.version_id == winner.version_id,
    ensures
        submit_rejection(did, registry.docs_of(did), loser) == SubmitError::SequenceConflict,
        !accepts_next(did, registry.docs_of(did), loser),
{
    let docs = registry.docs_of(did);
    lemma_chain_versions(docs, docs.len() - 1);
}

} // verus!
