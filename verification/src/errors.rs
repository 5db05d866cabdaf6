//! The error taxonomy of the engine.
//!
//! Validation failures are permanent for the document content that caused
//! them and are surfaced verbatim; store conflicts indicate a race or a store
//! inconsistent with the chain; configuration errors are raised before any
//! network or storage access happens.

use vstd::prelude::*;

verus! {

/// Why a candidate document failed chain validation.  The variants are in
/// the order the checks run; validation reports the first failure.
#[derive(Clone, Copy, Debug, PartialEq, Eq, Structural)]
pub enum ValidationError {
    /// The recomputed content hash differs from the declared `self_hash`.
    HashMismatch,
    /// The version number does not continue the sequence (1 for a root
    /// document, predecessor's version plus one otherwise).
    SequenceError,
    /// `prev_document_hash` does not equal the predecessor's `self_hash`.
    BrokenChain,
    /// `valid_from` is not strictly after the predecessor's `valid_from`.
    TemporalViolation,
    /// The signer's key is not among the keys authorized to sign this
    /// version.
    UnauthorizedSigner,
    /// The signature does not verify against the declared signer's key.
    BadSignature,
    /// A structural defect: duplicate key identifiers, an undeclared update
    /// key, an empty update-key set, or a root/non-root document with the
    /// wrong predecessor-hash shape.
    MalformedDocument,
}

/// Why the document store refused an operation.
#[derive(Clone, Copy, Debug, PartialEq, Eq, Structural)]
pub enum StoreError {
    /// An insert targeted a version slot that is not the next free one:
    /// a duplicate, an out-of-order insert, or a lost race with another
    /// writer for the same DID.
    SequenceConflict,
    /// The requested DID or version is not in the store.
    NotFound,
}

/// Why a resolver configuration was rejected before any work was done.
#[derive(Clone, Copy, Debug, PartialEq, Eq, Structural)]
pub enum ConfigurationError {
    /// A required option for the selected mode is absent (a full resolver
    /// without a store location, a thin resolver without a gateway
    /// endpoint).
    MissingRequiredOption,
    /// Two options contradict each other (a gateway endpoint that already
    /// carries a transport scheme while one is also injected).
    ConflictingOptions,
}

/// Why a resolution failed.
#[derive(Clone, Copy, Debug, PartialEq, Eq, Structural)]
pub enum ResolveError {
    /// The selector names a version the microledger does not have, or the
    /// DID has no document at all.
    NotFound,
    /// Chain validation failed at the given version with the given kind,
    /// so the identity's published history is broken from there on.
    InvalidChain { version_id: u64, kind: ValidationError },
}

/// Why the registry refused a submitted candidate document.
#[derive(Clone, Copy, Debug, PartialEq, Eq, Structural)]
pub enum SubmitError {
    /// The candidate targets an already-occupied version slot; with
    /// concurrent submissions, exactly one wins and the rest see this.
    SequenceConflict,
    /// The candidate failed chain validation against the registry's
    /// current latest version.
    Invalid(ValidationError),
}

} // verus!
