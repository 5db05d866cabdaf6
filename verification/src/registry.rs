//! The registry update protocol: how the authoritative host for a DID
//! accepts or rejects a submitted candidate document.
//!
//! A candidate is accepted exactly when it passes the same chain rules the
//! resolvers run, against the registry's own current latest version.  A
//! candidate aiming at an already-occupied version slot — the loser of a
//! concurrent submission race — receives a sequence conflict and changes
//! nothing; the per-DID mutual exclusion that makes the race winner
//! unambiguous is the exclusive `&mut` access to the registry's store.

use vstd::prelude::*;
use crate::document::{Did, DidDocument, DocumentView};
use crate::errors::SubmitError;
use crate::resolver::{ingest_document, reject_kind};
use crate::store::{accepts_next, DocumentStore};
use crate::validate::lemma_chain_versions;

verus! {

/// The rejection a candidate earns from a registry holding `docs` for
/// `did`: a conflict when its version slot is already filled, otherwise
/// the first failing chain check.
pub open spec fn submit_rejection(did: Did, docs: Seq<DocumentView>, c: DocumentView) -> SubmitError {
    if c.version_id <= docs.len() {
        SubmitError::SequenceConflict
    } else {
        SubmitError::Invalid(reject_kind(did, docs, c))
    }
}

/// Submits a candidate document to the authoritative registry for `did`.
/// Accepted exactly when the chain rules pass against the registry's
/// current latest version (and, for a root document, when the candidate
/// carries the DID's self-certifying hash); the stored history then grows
/// by the candidate and its version number is returned.  Any rejection
/// leaves the stored history untouched.
pub fn submit_document(registry: &mut DocumentStore, did: Did, candidate: &DidDocument) -> (r:
    Result<u64, SubmitError>)
    requires
        old(registry).wf(),
    ensures
        final(registry).wf(),
        r is Ok <==> accepts_next(did, old(registry).docs_of(did), candidate@),
        r matches Ok(n) ==> n == candidate@.version_id && final(registry).docs_of(did) =~= old(
            registry,
        ).docs_of(did).push(candidate@),
        r is Err ==> *final(registry) == *old(registry),
        r matches Err(e) ==> e == submit_rejection(did, old(registry).docs_of(did), candidate@),
        forall|other: Did|
            other != did ==> #[trigger] final(registry).docs_of(other) == old(registry).docs_of(
                other,
            ),
{
    let latest: u64 = match registry.latest_version(did) {
        Some(v) => v,
        None => 0,
    };
    if candidate.version_id <= latest {
        proof {
            let docs = registry.docs_of(did);
            if docs.len() > 0 {
                lemma_chain_versions(docs, docs.len() - 1);
            }
            assert(!accepts_next(did, docs, candidate@));
        }
        return Err(SubmitError::SequenceConflict);
    }
    match ingest_document(registry, did, candidate) {
        Ok(_) => Ok(candidate.version_id),
        Err(kind) => Err(SubmitError::Invalid(kind)),
    }
}

} // verus!
