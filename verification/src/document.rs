//! The document model: a DID, one version of its DID document, and the
//! canonical word encoding that the content hash and the signature cover.
//!
//! Contracts speak of a document through its view, `DocumentView`, whose
//! list fields are mathematical sequences.  The canonical encoding
//! deliberately leaves out the `self_hash` and `signature` fields: the hash
//! is computed with the hash slot blanked, and the signature covers the
//! document excluding the signature slot, so both can be checked by
//! recomputation from the remaining fields.

use vstd::prelude::*;
use crate::hash::{hash_of_words, hash_words, signature_words};

verus! {

/// An identifier binding a hostname to a self-certifying root.  The host is
/// carried as an opaque identifier supplied by the transport layer; the root
/// is the `self_hash` of the first document version, which is what makes the
/// identifier self-certifying.
#[derive(Clone, Copy, Debug, PartialEq, Eq, Structural)]
pub struct Did {
    /// Identifies the authoritative host for this DID.
    pub host: u64,
    /// The `self_hash` of version 1 of the DID's document chain.
    pub root: u64,
}

/// The role a verification method plays.
#[derive(Clone, Copy, Debug, PartialEq, Eq, Structural)]
pub enum KeyRole {
    Authentication,
    Assertion,
    CapabilityUpdate,
}

/// One public key declared by a document: an identifier and a role.  The
/// identifier doubles as the key material of the keyed-hash signature
/// scheme, so holding the identifier is holding the key.
#[derive(Clone, Copy, Debug, PartialEq, Eq, Structural)]
pub struct VerificationMethod {
    pub key_id: u64,
    pub role: KeyRole,
}

/// One version in a DID's document history.
#[derive(Debug)]
pub struct DidDocument {
    /// Monotonically increasing, starting at 1.
    pub version_id: u64,
    /// When this version takes effect; strictly greater than the
    /// predecessor's.
    pub valid_from: u64,
    /// Content hash of this document with this field blanked.
    pub self_hash: u64,
    /// `self_hash` of the predecessor; absent exactly for version 1.
    pub prev_document_hash: Option<u64>,
    /// The public keys this version declares.
    pub verification_methods: Vec<VerificationMethod>,
    /// Key identifiers authorized to sign the next version; a subset of the
    /// declared methods.
    pub update_key_ids: Vec<u64>,
    /// The key that signed this version.
    pub signer_key_id: u64,
    /// Signature over the document excluding this field.
    pub signature: u64,
}

/// The mathematical value of a document: the same fields, with the lists
/// as sequences.
#[verifier::ext_equal]
pub struct DocumentView {
    pub version_id: u64,
    pub valid_from: u64,
    pub self_hash: u64,
    pub prev_document_hash: Option<u64>,
    pub verification_methods: Seq<VerificationMethod>,
    pub update_key_ids: Seq<u64>,
    pub signer_key_id: u64,
    pub signature: u64,
}

impl View for DidDocument {
    type V = DocumentView;

    open spec fn view(&self) -> DocumentView {
        DocumentView {
            version_id: self.version_id,
            valid_from: self.valid_from,
            self_hash: self.self_hash,
            prev_document_hash: self.prev_document_hash,
            verification_methods: self.verification_methods@,
            update_key_ids: self.update_key_ids@,
            signer_key_id: self.signer_key_id,
            signature: self.signature,
        }
    }
}

impl DeepView for DidDocument {
    type V = DocumentView;

    open spec fn deep_view(&self) -> DocumentView {
        self@
    }
}

impl Clone for DidDocument {
    /// An exact copy: the clone has the same view as the original.
    fn clone(&self) -> (r: Self)
        ensures
            r@ == self@,
    {
        let r = DidDocument {
            version_id: self.version_id,
            valid_from: self.valid_from,
            self_hash: self.self_hash,
            prev_document_hash: self.prev_document_hash,
            verification_methods: self.verification_methods.clone(),
            update_key_ids: self.update_key_ids.clone(),
            signer_key_id: self.signer_key_id,
            signature: self.signature,
        };
        proof {
            assert(r.verification_methods@ =~= self.verification_methods@);
            assert(r.update_key_ids@ =~= self.update_key_ids@);
            assert(r@ =~= self@);
        }
        r
    }
}

/// Numeric tag of a role in the canonical encoding.
pub open spec fn role_word(r: KeyRole) -> u64 {
    match r {
        KeyRole::Authentication => 1,
        KeyRole::Assertion => 2,
        KeyRole::CapabilityUpdate => 3,
    }
}

/// Canonical words of a method list: two words per method, in order.
pub open spec fn method_words(ms: Seq<VerificationMethod>) -> Seq<u64>
    decreases ms.len(),
{
    if ms.len() == 0 {
        Seq::empty()
    } else {
        method_words(ms.drop_last()) + seq![ms.last().key_id, role_word(ms.last().role)]
    }
}

/// Canonical words of the predecessor-hash slot: a presence flag and the
/// hash, with both blank when absent.
pub open spec fn prev_words(p: Option<u64>) -> Seq<u64> {
    match p {
        Some(h) => seq![1u64, h],
        None => seq![0u64, 0u64],
    }
}

/// The canonical word encoding of a document's content: every field except
/// `self_hash` and `signature`, with each list preceded by its length.
pub open spec fn content_words(d: DocumentView) -> Seq<u64> {
    seq![d.version_id, d.valid_from] + prev_words(d.prev_document_hash) + seq![
        d.signer_key_id,
        d.verification_methods.len() as u64,
    ] + method_words(d.verification_methods)
        + seq![d.update_key_ids.len() as u64]
        + d.update_key_ids
}

/// The content hash of a document: the hash of its canonical words.
pub open spec fn digest_of(d: DocumentView) -> u64 {
    hash_words(content_words(d))
}

/// The declared `self_hash` matches the recomputed content hash.
pub open spec fn hash_ok(d: DocumentView) -> bool {
    d.self_hash == digest_of(d)
}

/// The declared signature is the one `key` produces over the content hash.
pub open spec fn signed_with(d: DocumentView, key: u64) -> bool {
    d.signature == signature_words(key, digest_of(d))
}

/// Some method in `ms` declares key `k`.
pub open spec fn declares_key(ms: Seq<VerificationMethod>, k: u64) -> bool {
    exists|i: int| 0 <= i < ms.len() && ms[i].key_id == k
}

/// No two methods share a key identifier.
pub open spec fn methods_unique(ms: Seq<VerificationMethod>) -> bool {
    forall|i: int, j: int| 0 <= i < j < ms.len() ==> ms[i].key_id != ms[j].key_id
}

/// Structural well-formedness of one document, independent of any
/// predecessor: unique key identifiers, a non-empty update-key set drawn
/// from the declared methods, and the predecessor-hash slot present exactly
/// when the version is not the root.  A document with an empty update-key
/// set would be a dead end, and this method treats it as malformed rather
/// than as a deactivation marker.
pub open spec fn well_formed(d: DocumentView) -> bool {
    &&& methods_unique(d.verification_methods)
    &&& d.update_key_ids.len() > 0
    &&& forall|i: int|
        0 <= i < d.update_key_ids.len() ==> declares_key(
            d.verification_methods,
            d.update_key_ids[i],
        )
    &&& (d.version_id == 1 <==> d.prev_document_hash is None)
}

/// Computes the canonical content hash of a document, with the `self_hash`
/// and `signature` fields playing no part.
pub fn document_digest(d: &DidDocument) -> (h: u64)
    ensures
        h == digest_of(d@),
{
    let mut words: Vec<u64> = Vec::new();
    words.push(d.version_id);
    words.push(d.valid_from);
    match d.prev_document_hash {
        Some(p) => {
            words.push(1);
            words.push(p);
        },
        None => {
            words.push(0);
            words.push(0);
        },
    }
    words.push(d.signer_key_id);
    words.push(d.verification_methods.len() as u64);
    let ghost header = words@;
    let mut i: usize = 0;
    while i < d.verification_methods.len()
        invariant
            i <= d.verification_methods.len(),
            words@ =~= header + method_words(d.verification_methods@.take(i as int)),
        decreases d.verification_methods.len() - i,
    {
        let m = d.verification_methods[i];
        words.push(m.key_id);
        match m.role {
            KeyRole::Authentication => words.push(1),
            KeyRole::Assertion => words.push(2),
            KeyRole::CapabilityUpdate => words.push(3),
        }
        proof {
            let taken = d.verification_methods@.take(i + 1);
            assert(taken.drop_last() =~= d.verification_methods@.take(i as int));
            assert(taken.last() == d.verification_methods@[i as int]);
        }
        i = i + 1;
    }
    proof {
        assert(d.verification_methods@.take(d.verification_methods@.len() as int)
            =~= d.verification_methods@);
    }
    words.push(d.update_key_ids.len() as u64);
    let ghost mid = words@;
    let mut j: usize = 0;
    while j < d.update_key_ids.len()
        invariant
            j <= d.update_key_ids.len(),
            words@ =~= mid + d.update_key_ids@.take(j as int),
        decreases d.update_key_ids.len() - j,
    {
        words.push(d.update_key_ids[j]);
        proof {
            assert(d.update_key_ids@.take(j + 1) =~= d.update_key_ids@.take(j as int)
                + seq![d.update_key_ids@[j as int]]);
        }
        j = j + 1;
    }
    proof {
        assert(d.update_key_ids@.take(d.update_key_ids@.len() as int) =~= d.update_key_ids@);
        assert(words@ =~= content_words(d@));
    }
    hash_of_words(&words)
}

/// Assembles a document from its content fields, filling in the `self_hash`
/// and `signature` slots by recomputation: the hash is the canonical content
/// hash, and the signature is the one `signer_key_id` produces over it.
/// This is how an authoring wallet seals a version; the engine itself only
/// ever checks the two slots.
pub fn assemble_document(
    version_id: u64,
    valid_from: u64,
    prev_document_hash: Option<u64>,
    verification_methods: Vec<VerificationMethod>,
    update_key_ids: Vec<u64>,
    signer_key_id: u64,
) -> (d: DidDocument)
    ensures
        d@.version_id == version_id,
        d@.valid_from == valid_from,
        d@.prev_document_hash == prev_document_hash,
        d@.verification_methods == verification_methods@,
        d@.update_key_ids == update_key_ids@,
        d@.signer_key_id == signer_key_id,
        hash_ok(d@),
        signed_with(d@, signer_key_id),
{
    let mut d = DidDocument {
        version_id,
        valid_from,
        self_hash: 0,
        prev_document_hash,
        verification_methods,
        update_key_ids,
        signer_key_id,
        signature: 0,
    };
    let digest = document_digest(&d);
    d.self_hash = digest;
    let signature = crate::hash::sign_digest(signer_key_id, digest);
    d.signature = signature;
    proof {
        assert(content_words(d@) =~= content_words(
            DocumentView { self_hash: 0, signature: 0, ..d@ },
        ));
    }
    d
}

} // verus!
