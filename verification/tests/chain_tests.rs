//! The chain validator and the full resolver, exercised end to end on
//! concrete microledgers.

use did_webplus::document::{assemble_document, Did, DidDocument, KeyRole, VerificationMethod};
use did_webplus::errors::{ResolveError, ValidationError};
use did_webplus::resolver::{resolve_full, Selector, TrustStatus};
use did_webplus::store::DocumentStore;
use did_webplus::validate::validate_next;

fn method(key_id: u64) -> VerificationMethod {
    VerificationMethod {
        key_id,
        role: KeyRole::CapabilityUpdate,
    }
}

/// Versions 1..=3 of one DID: version 1 self-signed by K1 with update keys
/// {K1}, version 2 signed by K1 handing over to {K2}, version 3 signed by
/// K2.
fn demo_chain() -> (Did, Vec<DidDocument>) {
    let k1 = 101;
    let k2 = 202;
    let v1 = assemble_document(1, 1000, None, vec![method(k1)], vec![k1], k1);
    let v2 = assemble_document(
        2,
        2000,
        Some(v1.self_hash),
        vec![method(k1), method(k2)],
        vec![k2],
        k1,
    );
    let v3 = assemble_document(3, 3000, Some(v2.self_hash), vec![method(k2)], vec![k2], k2);
    let did = Did {
        host: 7,
        root: v1.self_hash,
    };
    (did, vec![v1, v2, v3])
}

#[test]
fn valid_chain_validates_pairwise() {
    let (_, docs) = demo_chain();
    assert_eq!(validate_next(None, &docs[0]), Ok(()));
    assert_eq!(validate_next(Some(&docs[0]), &docs[1]), Ok(()));
    assert_eq!(validate_next(Some(&docs[1]), &docs[2]), Ok(()));
}

#[test]
fn full_resolver_resolves_latest_to_newest_version() {
    let (did, docs) = demo_chain();
    let mut store = DocumentStore::new();
    let r = resolve_full(&mut store, did, Selector::Latest, &docs).unwrap();
    assert_eq!(r.document.version_id, 3);
    assert_eq!(r.status, TrustStatus::Validated);
    assert_eq!(store.latest_version(did), Some(3));
    assert!(store.get(did, 1).is_some());
    assert!(store.get(did, 2).is_some());
    assert!(store.get(did, 3).is_some());
}

#[test]
fn corrupted_self_hash_fails_and_stops_the_batch() {
    let (did, mut docs) = demo_chain();
    docs[1].self_hash ^= 1;
    let mut store = DocumentStore::new();
    let r = resolve_full(&mut store, did, Selector::Latest, &docs);
    assert_eq!(
        r.unwrap_err(),
        ResolveError::InvalidChain {
            version_id: 2,
            kind: ValidationError::HashMismatch
        }
    );
    // Version 1 was stored before the failure; nothing at or past the
    // failure was.
    assert_eq!(store.latest_version(did), Some(1));
    assert!(store.get(did, 2).is_none());
    assert!(store.get(did, 3).is_none());
}

#[test]
fn explicit_version_and_as_of_selectors() {
    let (did, docs) = demo_chain();
    let mut store = DocumentStore::new();
    resolve_full(&mut store, did, Selector::Latest, &docs).unwrap();
    let none: Vec<DidDocument> = Vec::new();

    let r = resolve_full(&mut store, did, Selector::Version(2), &none).unwrap();
    assert_eq!(r.document.version_id, 2);

    let r = resolve_full(&mut store, did, Selector::Version(9), &none);
    assert_eq!(r.unwrap_err(), ResolveError::NotFound);

    let r = resolve_full(&mut store, did, Selector::AsOf(2500), &none).unwrap();
    assert_eq!(r.document.version_id, 2);

    let r = resolve_full(&mut store, did, Selector::AsOf(3000), &none).unwrap();
    assert_eq!(r.document.version_id, 3);

    let r = resolve_full(&mut store, did, Selector::AsOf(500), &none);
    assert_eq!(r.unwrap_err(), ResolveError::NotFound);
}

#[test]
fn unknown_did_is_not_found() {
    let (did, docs) = demo_chain();
    let mut store = DocumentStore::new();
    resolve_full(&mut store, did, Selector::Latest, &docs).unwrap();
    let other = Did {
        host: 7,
        root: did.root ^ 5,
    };
    let none: Vec<DidDocument> = Vec::new();
    let r = resolve_full(&mut store, other, Selector::Latest, &none);
    assert_eq!(r.unwrap_err(), ResolveError::NotFound);
    assert_eq!(store.latest_version(did), Some(3));
}

#[test]
fn root_document_must_match_the_did_root() {
    let (did, docs) = demo_chain();
    let wrong_did = Did {
        host: did.host,
        root: did.root ^ 1,
    };
    let mut store = DocumentStore::new();
    let r = resolve_full(&mut store, wrong_did, Selector::Latest, &docs);
    assert_eq!(
        r.unwrap_err(),
        ResolveError::InvalidChain {
            version_id: 1,
            kind: ValidationError::HashMismatch
        }
    );
    assert_eq!(store.latest_version(wrong_did), None);
}
