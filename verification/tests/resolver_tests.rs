//! The thin and raw strategies, cache behaviour of the full strategy, and
//! the registry's submission protocol.

use did_webplus::document::{assemble_document, Did, DidDocument, KeyRole, VerificationMethod};
use did_webplus::errors::{ResolveError, SubmitError, ValidationError};
use did_webplus::registry::submit_document;
use did_webplus::resolver::{
    fetch_needed, resolve_full, resolve_raw, resolve_thin, Resolution, Selector, TrustStatus,
};
use did_webplus::store::DocumentStore;

fn method(key_id: u64) -> VerificationMethod {
    VerificationMethod {
        key_id,
        role: KeyRole::Authentication,
    }
}

fn demo_chain() -> (Did, Vec<DidDocument>) {
    let k1 = 11;
    let k2 = 22;
    let v1 = assemble_document(1, 1000, None, vec![method(k1)], vec![k1], k1);
    let v2 = assemble_document(
        2,
        2000,
        Some(v1.self_hash),
        vec![method(k2)],
        vec![k2],
        k1,
    );
    let did = Did {
        host: 3,
        root: v1.self_hash,
    };
    (did, vec![v1, v2])
}

#[test]
fn second_resolution_is_a_cache_hit() {
    let (did, docs) = demo_chain();
    let mut store = DocumentStore::new();
    let first = resolve_full(&mut store, did, Selector::Version(2), &docs).unwrap();
    assert_eq!(store.latest_version(did), Some(2));

    // The selector is now satisfied locally: no fetch is needed, and the
    // second resolution answers from the store without writing.
    assert!(!fetch_needed(&store, did, Selector::Version(2)));
    let none: Vec<DidDocument> = Vec::new();
    let second = resolve_full(&mut store, did, Selector::Version(2), &none).unwrap();
    assert_eq!(store.latest_version(did), Some(2));
    assert_eq!(second.document.version_id, first.document.version_id);
    assert_eq!(second.document.self_hash, first.document.self_hash);
    assert_eq!(second.document.signature, first.document.signature);
    assert_eq!(second.status, first.status);
}

#[test]
fn thin_resolver_passes_a_validated_answer_through() {
    let (_, docs) = demo_chain();
    let answer = Ok(Resolution {
        document: docs[1].clone(),
        status: TrustStatus::GatewayTrusted,
    });
    let expected_hash = docs[1].self_hash;
    let r = resolve_thin(answer).unwrap();
    assert_eq!(r.status, TrustStatus::GatewayTrusted);
    assert_eq!(r.document.self_hash, expected_hash);
    assert_eq!(r.document.version_id, 2);
}

#[test]
fn thin_resolver_passes_an_invalid_answer_through() {
    let gateway_error = Err(ResolveError::InvalidChain {
        version_id: 2,
        kind: ValidationError::BadSignature,
    });
    let r = resolve_thin(gateway_error);
    assert_eq!(
        r.unwrap_err(),
        ResolveError::InvalidChain {
            version_id: 2,
            kind: ValidationError::BadSignature
        }
    );
}

#[test]
fn raw_resolver_returns_invalid_content_unvalidated() {
    let (_, docs) = demo_chain();
    let mut tampered = docs[1].clone();
    tampered.signature ^= 1; // no chain check would accept this
    let expected_signature = tampered.signature;
    let r = resolve_raw(Some(tampered)).unwrap();
    assert_eq!(r.status, TrustStatus::Unvalidated);
    assert_eq!(r.document.signature, expected_signature);
    assert_eq!(r.document.version_id, 2);

    assert_eq!(resolve_raw(None).unwrap_err(), ResolveError::NotFound);
}

#[test]
fn registry_accepts_a_valid_submission_chain() {
    let (did, docs) = demo_chain();
    let mut registry = DocumentStore::new();
    assert_eq!(submit_document(&mut registry, did, &docs[0]), Ok(1));
    assert_eq!(submit_document(&mut registry, did, &docs[1]), Ok(2));
    assert_eq!(registry.latest_version(did), Some(2));
}

#[test]
fn losing_concurrent_submission_gets_a_sequence_conflict() {
    let k1 = 11;
    let (did, docs) = demo_chain();
    let mut registry = DocumentStore::new();
    submit_document(&mut registry, did, &docs[0]).unwrap();

    // Two candidate version-2 documents race for the same slot; the first
    // one in wins, the second sees the slot taken.
    let rival = assemble_document(
        2,
        2500,
        Some(docs[0].self_hash),
        vec![method(77)],
        vec![77],
        k1,
    );
    assert_eq!(submit_document(&mut registry, did, &docs[1]), Ok(2));
    assert_eq!(
        submit_document(&mut registry, did, &rival),
        Err(SubmitError::SequenceConflict)
    );
    // The stored version 2 is the winner, untouched by the loser.
    assert_eq!(registry.get(did, 2).unwrap().self_hash, docs[1].self_hash);
}

#[test]
fn registry_reports_the_failing_check_of_an_invalid_submission() {
    let (did, docs) = demo_chain();
    let mut registry = DocumentStore::new();
    submit_document(&mut registry, did, &docs[0]).unwrap();

    // Signed by a key the predecessor never authorized.
    let intruder = assemble_document(
        2,
        2500,
        Some(docs[0].self_hash),
        vec![method(99)],
        vec![99],
        99,
    );
    assert_eq!(
        submit_document(&mut registry, did, &intruder),
        Err(SubmitError::Invalid(ValidationError::UnauthorizedSigner))
    );
    assert_eq!(registry.latest_version(did), Some(1));
}
