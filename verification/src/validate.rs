//! The chain validator: the pure rules that make a sequence of documents a
//! verifiable, tamper-evident history.
//!
//! `validate_next` checks one candidate against its predecessor (or against
//! nothing, for a root document), running the checks in a fixed order and
//! reporting the first failure.  It touches no storage and no network; both
//! documents arrive as plain values, which keeps every rule deterministic
//! and unit-testable.

use vstd::prelude::*;
use crate::document::{
    declares_key, digest_of, document_digest, hash_ok, methods_unique, signed_with, well_formed,
    DidDocument, DocumentView, VerificationMethod,
};
use crate::errors::ValidationError;
use crate::hash::sign_digest;

verus! {

/// The view behind an optional document reference, for contracts.
pub open spec fn opt_doc(prev: Option<&DidDocument>) -> Option<DocumentView> {
    match prev {
        Some(p) => Some(p@),
        None => None,
    }
}

/// Sequence rule: a root document is version 1; any other continues its
/// predecessor by exactly one.
pub open spec fn sequence_ok(prev: Option<DocumentView>, c: DocumentView) -> bool {
    match prev {
        None => c.version_id == 1,
        Some(p) => c.version_id == p.version_id + 1,
    }
}

/// Linkage rule: a non-root document names its predecessor by that
/// predecessor's declared `self_hash`.
pub open spec fn linkage_ok(prev: Option<DocumentView>, c: DocumentView) -> bool {
    match prev {
        None => true,
        Some(p) => c.prev_document_hash == Some(p.self_hash),
    }
}

/// Temporal rule: `valid_from` strictly increases along the chain.
pub open spec fn temporal_ok(prev: Option<DocumentView>, c: DocumentView) -> bool {
    match prev {
        None => true,
        Some(p) => c.valid_from > p.valid_from,
    }
}

/// Authorization rule: the signer must hold an update key of the
/// predecessor; a root document is self-certifying and its signer must hold
/// one of its own declared update keys.
pub open spec fn authorized_ok(prev: Option<DocumentView>, c: DocumentView) -> bool {
    match prev {
        None => c.update_key_ids.contains(c.signer_key_id),
        Some(p) => p.update_key_ids.contains(c.signer_key_id),
    }
}

/// Signature rule: the declared signature verifies against the declared
/// signer's key over the document's content hash.
pub open spec fn signature_ok(c: DocumentView) -> bool {
    signed_with(c, c.signer_key_id)
}

/// The outcome of validating `c` against `prev`: the first failing check's
/// error, in the fixed check order, or `None` when every check passes.
pub open spec fn validation_outcome(prev: Option<DocumentView>, c: DocumentView) -> Option<
    ValidationError,
> {
    if !hash_ok(c) {
        Some(ValidationError::HashMismatch)
    } else if !sequence_ok(prev, c) {
        Some(ValidationError::SequenceError)
    } else if !linkage_ok(prev, c) {
        Some(ValidationError::BrokenChain)
    } else if !temporal_ok(prev, c) {
        Some(ValidationError::TemporalViolation)
    } else if !authorized_ok(prev, c) {
        Some(ValidationError::UnauthorizedSigner)
    } else if !signature_ok(c) {
        Some(ValidationError::BadSignature)
    } else if !well_formed(c) {
        Some(ValidationError::MalformedDocument)
    } else {
        None
    }
}

/// `c` passes every chain check against `prev`.
pub open spec fn validates(prev: Option<DocumentView>, c: DocumentView) -> bool {
    validation_outcome(prev, c) is None
}

/// The predecessor of position `i` in a document sequence.
pub open spec fn prev_of(docs: Seq<DocumentView>, i: int) -> Option<DocumentView> {
    if i == 0 {
        None
    } else {
        Some(docs[i - 1])
    }
}

/// A whole microledger is valid: every document passes every check against
/// its predecessor.  Versions are then forced to run 1, 2, ... in order.
pub open spec fn chain_ok(docs: Seq<DocumentView>) -> bool {
    forall|i: int| 0 <= i < docs.len() ==> validates(prev_of(docs, i), docs[i])
}

/// In a valid chain, the document at position `i` carries version `i + 1`.
pub proof fn lemma_chain_versions(docs: Seq<DocumentView>, i: int)
    requires
        chain_ok(docs),
        0 <= i < docs.len(),
    ensures
        docs[i].version_id == i + 1,
    decreases i,
{
    if i > 0 {
        lemma_chain_versions(docs, i - 1);
    }
}

/// Extending a valid chain with a document that passes every check against
/// its last element keeps the chain valid.
pub proof fn lemma_chain_push(docs: Seq<DocumentView>, doc: DocumentView)
    requires
        chain_ok(docs),
        validates(prev_of(docs, docs.len() as int), doc),
    ensures
        chain_ok(docs.push(doc)),
{
    let longer = docs.push(doc);
    assert forall|i: int| 0 <= i < longer.len() implies validates(
        prev_of(longer, i),
        longer[i],
    ) by {
        if i < docs.len() {
            assert(longer[i] == docs[i]);
            if i > 0 {
                assert(longer[i - 1] == docs[i - 1]);
            }
            assert(validates(prev_of(docs, i), docs[i]));
        } else {
            assert(longer[i] == doc);
            if i > 0 {
                assert(longer[i - 1] == docs[i - 1]);
            }
        }
    }
}

/// Whether `x` occurs in `v`.
pub fn contains_key(v: &Vec<u64>, x: u64) -> (b: bool)
    ensures
        b == v@.contains(x),
{
    let mut i: usize = 0;
    while i < v.len()
        invariant
            i <= v.len(),
            forall|k: int| 0 <= k < i ==> v@[k] != x,
        decreases v.len() - i,
    {
        if v[i] == x {
            return true;
        }
        i = i + 1;
    }
    false
}

/// Whether some method in `ms` declares key `k`.
fn method_list_declares(ms: &Vec<VerificationMethod>, k: u64) -> (b: bool)
    ensures
        b == declares_key(ms@, k),
{
    let mut i: usize = 0;
    while i < ms.len()
        invariant
            i <= ms.len(),
            forall|j: int| 0 <= j < i ==> ms@[j].key_id != k,
        decreases ms.len() - i,
    {
        if ms[i].key_id == k {
            return true;
        }
        i = i + 1;
    }
    false
}

/// Whether no two methods in `ms` share a key identifier.
fn method_list_unique(ms: &Vec<VerificationMethod>) -> (b: bool)
    ensures
        b == methods_unique(ms@),
{
    let mut i: usize = 0;
    while i < ms.len()
        invariant
            i <= ms.len(),
            forall|p: int, q: int| 0 <= p < q < i ==> ms@[p].key_id != ms@[q].key_id,
        decreases ms.len() - i,
    {
        let mut j: usize = 0;
        while j < i
            invariant
                j <= i < ms.len(),
                forall|p: int, q: int| 0 <= p < q < i ==> ms@[p].key_id != ms@[q].key_id,
                forall|p: int| 0 <= p < j ==> ms@[p].key_id != ms@[i as int].key_id,
            decreases i - j,
        {
            if ms[j].key_id == ms[i].key_id {
                return false;
            }
            j = j + 1;
        }
        i = i + 1;
    }
    true
}

/// Checks structural well-formedness of one document.
fn check_well_formed(c: &DidDocument) -> (b: bool)
    ensures
        b == well_formed(c@),
{
    if !method_list_unique(&c.verification_methods) {
        return false;
    }
    if c.update_key_ids.len() == 0 {
        return false;
    }
    let mut i: usize = 0;
    while i < c.update_key_ids.len()
        invariant
            i <= c.update_key_ids@.len(),
            forall|k: int| 0 <= k < i ==> declares_key(c.verification_methods@, c.update_key_ids@[k]),
        decreases c.update_key_ids.len() - i,
    {
        if !method_list_declares(&c.verification_methods, c.update_key_ids[i]) {
            return false;
        }
        i = i + 1;
    }
    (c.version_id == 1) == c.prev_document_hash.is_none()
}

/// Validates `candidate` against `prev`, running the checks in order —
/// hash, sequence, linkage, temporal, authorization, signature, structure —
/// and short-circuiting on the first failure.  Pure: the outcome is a
/// function of the two documents alone.
pub fn validate_next(prev: Option<&DidDocument>, candidate: &DidDocument) -> (r: Result<
    (),
    ValidationError,
>)
    ensures
        r == (match validation_outcome(opt_doc(prev), candidate@) {
            None => Ok::<(), ValidationError>(()),
            Some(e) => Err::<(), ValidationError>(e),
        }),
        r is Ok <==> validates(opt_doc(prev), candidate@),
{
    let digest = document_digest(candidate);
    if candidate.self_hash != digest {
        return Err(ValidationError::HashMismatch);
    }
    match prev {
        None => {
            if candidate.version_id != 1 {
                return Err(ValidationError::SequenceError);
            }
        },
        Some(p) => {
            if p.version_id == u64::MAX || candidate.version_id != p.version_id + 1 {
                return Err(ValidationError::SequenceError);
            }
        },
    }
    if let Some(p) = prev {
        let linked = match candidate.prev_document_hash {
            Some(h) => h == p.self_hash,
            None => false,
        };
        if !linked {
            return Err(ValidationError::BrokenChain);
        }
        if candidate.valid_from <= p.valid_from {
            return Err(ValidationError::TemporalViolation);
        }
        if !contains_key(&p.update_key_ids, candidate.signer_key_id) {
            return Err(ValidationError::UnauthorizedSigner);
        }
    } else {
        if !contains_key(&candidate.update_key_ids, candidate.signer_key_id) {
            return Err(ValidationError::UnauthorizedSigner);
        }
    }
    let expected = sign_digest(candidate.signer_key_id, digest);
    if candidate.signature != expected {
        return Err(ValidationError::BadSignature);
    }
    if !check_well_formed(candidate) {
        return Err(ValidationError::MalformedDocument);
    }
    Ok(())
}

} // verus!
