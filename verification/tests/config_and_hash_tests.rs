//! Configuration decisions and the content-hash primitives.

use did_webplus::config::{
    parse_resolver_mode, plan_resolver, select_backend, DbBackend, ResolverMode, ResolverPlan,
};
use did_webplus::document::{assemble_document, document_digest, KeyRole, VerificationMethod};
use did_webplus::errors::ConfigurationError;
use did_webplus::hash::{hash_of_words, sign_digest, HASH_SEED};

#[test]
fn resolver_mode_names() {
    assert_eq!(
        parse_resolver_mode(&b"full".to_vec()),
        Some(ResolverMode::Full)
    );
    assert_eq!(
        parse_resolver_mode(&b"thin".to_vec()),
        Some(ResolverMode::Thin)
    );
    assert_eq!(
        parse_resolver_mode(&b"raw".to_vec()),
        Some(ResolverMode::Raw)
    );
    assert_eq!(parse_resolver_mode(&b"fast".to_vec()), None);
    assert_eq!(parse_resolver_mode(&b"".to_vec()), None);
}

#[test]
fn full_resolver_requires_a_store_location() {
    let r = plan_resolver(ResolverMode::Full, None, Some(b"vdg.example.com".to_vec()));
    assert_eq!(r.unwrap_err(), ConfigurationError::MissingRequiredOption);

    let r = plan_resolver(
        ResolverMode::Full,
        Some(b"sqlite://store.db".to_vec()),
        Some(b"vdg.example.com".to_vec()),
    );
    match r.unwrap() {
        ResolverPlan::Full { store_location } => {
            assert_eq!(store_location, b"sqlite://store.db".to_vec())
        }
        other => panic!("wrong plan: {:?}", other),
    }
}

#[test]
fn thin_resolver_requires_a_schemeless_gateway() {
    let r = plan_resolver(ResolverMode::Thin, None, None);
    assert_eq!(r.unwrap_err(), ConfigurationError::MissingRequiredOption);

    let r = plan_resolver(
        ResolverMode::Thin,
        None,
        Some(b"https://vdg.example.com".to_vec()),
    );
    assert_eq!(r.unwrap_err(), ConfigurationError::ConflictingOptions);

    let r = plan_resolver(ResolverMode::Thin, None, Some(b"vdg.example.com".to_vec()));
    match r.unwrap() {
        ResolverPlan::Thin { gateway_endpoint } => {
            assert_eq!(gateway_endpoint, b"vdg.example.com".to_vec())
        }
        other => panic!("wrong plan: {:?}", other),
    }
}

#[test]
fn raw_resolver_needs_nothing() {
    let r = plan_resolver(ResolverMode::Raw, None, None);
    assert!(matches!(r.unwrap(), ResolverPlan::Raw));
}

#[test]
fn backend_selection_goes_by_url_scheme() {
    assert_eq!(
        select_backend(&b"postgres://db.example.com/vdr".to_vec()),
        Some(DbBackend::Postgres)
    );
    assert_eq!(
        select_backend(&b"sqlite://store.db".to_vec()),
        Some(DbBackend::Sqlite)
    );
    assert_eq!(select_backend(&b"mysql://db".to_vec()), None);
    assert_eq!(select_backend(&b"".to_vec()), None);
}

#[test]
fn hash_fold_has_exact_values() {
    assert_eq!(hash_of_words(&vec![]), HASH_SEED);
    assert_eq!(hash_of_words(&vec![7]), 0xaf63bd4c8601b7e6);
    assert_eq!(hash_of_words(&vec![7, 9]), 0x08328f07b4eb7bdb);
    // A signature is the fold over the key and the digest.
    assert_eq!(sign_digest(7, 9), hash_of_words(&vec![7, 9]));
}

#[test]
fn digest_covers_content_but_not_the_sealed_slots() {
    let m = VerificationMethod {
        key_id: 5,
        role: KeyRole::Assertion,
    };
    let d = assemble_document(1, 10, None, vec![m], vec![5], 5);
    assert_eq!(d.self_hash, document_digest(&d));

    // Tampering with the sealed slots does not move the digest...
    let mut sealed = d.clone();
    sealed.signature ^= 1;
    assert_eq!(document_digest(&sealed), d.self_hash);

    // ...but changing content does.
    let mut changed = d.clone();
    changed.valid_from += 1;
    assert_ne!(document_digest(&changed), d.self_hash);
}
