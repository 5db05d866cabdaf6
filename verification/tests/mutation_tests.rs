//! Every single-field mutation of a document draws exactly the error kind
//! its broken rule names, and an invalid document stops the rest of its
//! batch from being stored.

use did_webplus::document::{assemble_document, Did, DidDocument, KeyRole, VerificationMethod};
use did_webplus::errors::{ResolveError, ValidationError};
use did_webplus::resolver::{resolve_full, Selector};
use did_webplus::store::DocumentStore;
use did_webplus::validate::validate_next;

fn method(key_id: u64) -> VerificationMethod {
    VerificationMethod {
        key_id,
        role: KeyRole::CapabilityUpdate,
    }
}

fn root_doc(k1: u64) -> DidDocument {
    assemble_document(1, 1000, None, vec![method(k1)], vec![k1], k1)
}

#[test]
fn content_flip_keeping_declared_hash_is_hash_mismatch() {
    let v1 = root_doc(101);
    let mut v2 = assemble_document(2, 2000, Some(v1.self_hash), vec![method(101)], vec![101], 101);
    v2.valid_from += 1; // content changed under the declared hash
    assert_eq!(
        validate_next(Some(&v1), &v2),
        Err(ValidationError::HashMismatch)
    );
}

#[test]
fn reused_version_number_is_sequence_error() {
    let v1 = root_doc(101);
    let v2 = assemble_document(1, 2000, Some(v1.self_hash), vec![method(101)], vec![101], 101);
    assert_eq!(
        validate_next(Some(&v1), &v2),
        Err(ValidationError::SequenceError)
    );
}

#[test]
fn wrong_predecessor_hash_is_broken_chain() {
    let v1 = root_doc(101);
    let v2 = assemble_document(
        2,
        2000,
        Some(v1.self_hash ^ 1),
        vec![method(101)],
        vec![101],
        101,
    );
    assert_eq!(
        validate_next(Some(&v1), &v2),
        Err(ValidationError::BrokenChain)
    );
}

#[test]
fn non_increasing_valid_from_is_temporal_violation() {
    let v1 = root_doc(101);
    let v2 = assemble_document(2, 1000, Some(v1.self_hash), vec![method(101)], vec![101], 101);
    assert_eq!(
        validate_next(Some(&v1), &v2),
        Err(ValidationError::TemporalViolation)
    );
}

#[test]
fn signer_outside_predecessor_update_keys_is_unauthorized() {
    let v1 = root_doc(101);
    let v2 = assemble_document(
        2,
        2000,
        Some(v1.self_hash),
        vec![method(101), method(999)],
        vec![101],
        999,
    );
    assert_eq!(
        validate_next(Some(&v1), &v2),
        Err(ValidationError::UnauthorizedSigner)
    );
}

#[test]
fn flipped_signature_is_bad_signature() {
    let v1 = root_doc(101);
    let mut v2 = assemble_document(2, 2000, Some(v1.self_hash), vec![method(101)], vec![101], 101);
    v2.signature ^= 1;
    assert_eq!(
        validate_next(Some(&v1), &v2),
        Err(ValidationError::BadSignature)
    );
}

#[test]
fn empty_update_key_set_is_malformed() {
    let v1 = root_doc(101);
    let v2 = assemble_document(2, 2000, Some(v1.self_hash), vec![method(101)], vec![], 101);
    assert_eq!(
        validate_next(Some(&v1), &v2),
        Err(ValidationError::MalformedDocument)
    );
}

#[test]
fn duplicate_key_identifiers_are_malformed() {
    let v1 = root_doc(101);
    let v2 = assemble_document(
        2,
        2000,
        Some(v1.self_hash),
        vec![method(101), method(101)],
        vec![101],
        101,
    );
    assert_eq!(
        validate_next(Some(&v1), &v2),
        Err(ValidationError::MalformedDocument)
    );
}

#[test]
fn undeclared_update_key_is_malformed() {
    let v1 = root_doc(101);
    let v2 = assemble_document(
        2,
        2000,
        Some(v1.self_hash),
        vec![method(101)],
        vec![101, 555],
        101,
    );
    assert_eq!(
        validate_next(Some(&v1), &v2),
        Err(ValidationError::MalformedDocument)
    );
}

#[test]
fn root_with_predecessor_hash_is_malformed() {
    let v1 = assemble_document(1, 1000, Some(42), vec![method(101)], vec![101], 101);
    assert_eq!(
        validate_next(None, &v1),
        Err(ValidationError::MalformedDocument)
    );
}

#[test]
fn nothing_after_the_first_failure_is_stored() {
    let k1 = 101;
    let v1 = root_doc(k1);
    let bad_v2 = assemble_document(2, 500, Some(v1.self_hash), vec![method(k1)], vec![k1], k1);
    let v3 = assemble_document(3, 3000, Some(bad_v2.self_hash), vec![method(k1)], vec![k1], k1);
    let did = Did {
        host: 7,
        root: v1.self_hash,
    };
    let mut store = DocumentStore::new();
    let r = resolve_full(&mut store, did, Selector::Latest, &vec![v1, bad_v2, v3]);
    assert_eq!(
        r.unwrap_err(),
        ResolveError::InvalidChain {
            version_id: 2,
            kind: ValidationError::TemporalViolation
        }
    );
    assert_eq!(store.latest_version(did), Some(1));
    assert!(store.get(did, 2).is_none());
    assert!(store.get(did, 3).is_none());
}
