//! The three resolution strategies over one capability: resolve a DID and
//! a version selector to a document.
//!
//! The full resolver ingests a fetched suffix of the microledger into the
//! local store, validating every document in strict order against the
//! running predecessor and stopping at the first failure, then answers the
//! selector from the store.  The thin resolver hands back a configured
//! gateway's answer unmodified, trusting it transitively.  The raw resolver
//! hands back fetched content unvalidated, for diagnostics only.  Network
//! fetching itself happens outside the crate; fetched documents arrive here
//! as plain values.

use vstd::prelude::*;
use crate::document::{Did, DidDocument, DocumentView};
use crate::errors::{ResolveError, ValidationError};
use crate::store::{accepts_next, DocumentStore};
use crate::validate::{prev_of, validate_next, validation_outcome};

verus! {

/// Which version a caller asks for: the newest one, an explicit version
/// number, or the version in force at a timestamp.
#[derive(Clone, Copy, Debug, PartialEq, Eq, Structural)]
pub enum Selector {
    Latest,
    Version(u64),
    AsOf(u64),
}

/// How far the returned document can be trusted.
#[derive(Clone, Copy, Debug, PartialEq, Eq, Structural)]
pub enum TrustStatus {
    /// Every version from the root up to this one passed every chain check
    /// locally.
    Validated,
    /// A configured gateway vouched for the document; no local check ran.
    GatewayTrusted,
    /// Fetched and returned as-is; no check ran anywhere.
    Unvalidated,
}

/// A resolved document together with its trust status.
#[derive(Debug)]
pub struct Resolution {
    pub document: DidDocument,
    pub status: TrustStatus,
}

/// How many leading documents of `fetched` extend the history `docs` of
/// `did`, each accepted against the history as grown so far.
pub open spec fn good_len(did: Did, docs: Seq<DocumentView>, fetched: Seq<DocumentView>) -> int
    decreases fetched.len(),
{
    if fetched.len() == 0 {
        0
    } else if !accepts_next(did, docs, fetched[0]) {
        0
    } else {
        1 + good_len(did, docs.push(fetched[0]), fetched.drop_first())
    }
}

/// The error kind reported for a document the history rejects: the first
/// failing chain check, or `HashMismatch` for a root document whose hash
/// is not the one the DID's self-certifying root names.
pub open spec fn reject_kind(did: Did, docs: Seq<DocumentView>, d: DocumentView) -> ValidationError {
    match validation_outcome(prev_of(docs, docs.len() as int), d) {
        Some(e) => e,
        None => ValidationError::HashMismatch,
    }
}

/// `good_len` is the position of the first rejected fetched document, or
/// the whole length when every one is accepted.
pub proof fn lemma_good_len(did: Did, docs: Seq<DocumentView>, fetched: Seq<DocumentView>, i: int)
    requires
        0 <= i <= fetched.len(),
        forall|k: int|
            0 <= k < i ==> accepts_next(did, docs + fetched.take(k), #[trigger] fetched[k]),
        i < fetched.len() ==> !accepts_next(did, docs + fetched.take(i), fetched[i]),
    ensures
        good_len(did, docs, fetched) == i,
    decreases i,
{
    if i == 0 {
        if fetched.len() > 0 {
            assert(docs + fetched.take(0) =~= docs);
        }
    } else {
        assert(docs + fetched.take(0) =~= docs);
        assert(accepts_next(did, docs, fetched[0]));
        let docs2 = docs.push(fetched[0]);
        let rest = fetched.drop_first();
        assert forall|k: int| 0 <= k < i - 1 implies accepts_next(
            did,
            docs2 + rest.take(k),
            #[trigger] rest[k],
        ) by {
            assert(docs2 + rest.take(k) =~= docs + fetched.take(k + 1));
            assert(rest[k] == fetched[k + 1]);
        }
        if i - 1 < rest.len() {
            assert(docs2 + rest.take(i - 1) =~= docs + fetched.take(i));
            assert(rest[i - 1] == fetched[i]);
        }
        lemma_good_len(did, docs2, rest, i - 1);
    }
}

/// Ingests one fetched document: validates it against the stored latest
/// version of its DID (and, for a root document, against the DID's
/// self-certifying root), and stores it on success.  On failure the store
/// is untouched and the first failing check is reported.
pub(crate) fn ingest_document(store: &mut DocumentStore, did: Did, candidate: &DidDocument) -> (r: Result<
    (),
    ValidationError,
>)
    requires
        old(store).wf(),
    ensures
        final(store).wf(),
        r is Ok <==> accepts_next(did, old(store).docs_of(did), candidate@),
        r is Ok ==> final(store).docs_of(did) =~= old(store).docs_of(did).push(candidate@),
        r matches Err(kind) ==> *final(store) == *old(store) && kind == reject_kind(
            did,
            old(store).docs_of(did),
            candidate@,
        ),
        forall|other: Did|
            other != did ==> #[trigger] final(store).docs_of(other) == old(store).docs_of(other),
{
    let latest: u64 = match store.latest_version(did) {
        Some(v) => v,
        None => 0,
    };
    let prev_doc: Option<DidDocument> = if latest == 0 {
        None
    } else {
        store.get(did, latest)
    };
    let ghost here = store.docs_of(did);
    proof {
        if latest != 0 {
            assert(prev_doc matches Some(p) && p@ == here[here.len() - 1]);
            assert(prev_of(here, here.len() as int) == Some(here.last()));
        }
    }
    let verdict = validate_next(prev_doc.as_ref(), candidate);
    match verdict {
        Ok(_) => {
            if latest == 0 && candidate.self_hash != did.root {
                return Err(ValidationError::HashMismatch);
            }
        },
        Err(e) => {
            return Err(e);
        },
    }
    let put = store.put_validated(did, candidate.clone());
    proof {
        assert(put is Ok);
    }
    Ok(())
}

/// Ingests a fetched suffix of a DID's microledger into the store:
/// validates each document in order against the running predecessor,
/// stores each success before looking at the next, and stops at the first
/// failure, surfacing which version failed which check.  Documents before
/// the failure stay stored; documents after it are never stored.
#[verifier::rlimit(100)]
pub fn extend_with_fetched(
    store: &mut DocumentStore,
    did: Did,
    fetched: &Vec<DidDocument>,
) -> (r: Result<u64, ResolveError>)
    requires
        old(store).wf(),
    ensures
        final(store).wf(),
        final(store).docs_of(did) =~= old(store).docs_of(did) + fetched.deep_view().take(
            good_len(did, old(store).docs_of(did), fetched.deep_view()),
        ),
        forall|other: Did|
            other != did ==> #[trigger] final(store).docs_of(other) == old(store).docs_of(other),
        fetched@.len() == 0 ==> *final(store) == *old(store),
        0 <= good_len(did, old(store).docs_of(did), fetched.deep_view())
            <= fetched.deep_view().len(),
        r is Ok <==> good_len(did, old(store).docs_of(did), fetched.deep_view())
            == fetched.deep_view().len(),
        r matches Ok(n) ==> n == final(store).latest_of(did),
        r is Err ==> ({
            let g = good_len(did, old(store).docs_of(did), fetched.deep_view());
            let docs_at = old(store).docs_of(did) + fetched.deep_view().take(g);
            r == Err::<u64, ResolveError>(
                ResolveError::InvalidChain {
                    version_id: fetched.deep_view()[g].version_id,
                    kind: reject_kind(did, docs_at, fetched.deep_view()[g]),
                },
            )
        }),
{
    let ghost olddocs = old(store).docs_of(did);
    let ghost fvs = fetched.deep_view();
    let mut idx: usize = 0;
    while idx < fetched.len()
        invariant
            store.wf(),
            idx <= fetched.len(),
            fvs == fetched.deep_view(),
            olddocs == old(store).docs_of(did),
            store.docs_of(did) =~= olddocs + fvs.take(idx as int),
            forall|other: Did|
                other != did ==> #[trigger] store.docs_of(other) == old(store).docs_of(other),
            idx == 0 ==> *store == *old(store),
            forall|k: int|
                0 <= k < idx ==> accepts_next(did, olddocs + fvs.take(k), #[trigger] fvs[k]),
        decreases fetched.len() - idx,
    {
        let candidate = &fetched[idx];
        proof {
            assert(fvs[idx as int] == candidate@);
        }
        match ingest_document(store, did, candidate) {
            Err(kind) => {
                proof {
                    lemma_good_len(did, olddocs, fvs, idx as int);
                }
                return Err(
                    ResolveError::InvalidChain { version_id: candidate.version_id, kind },
                );
            },
            Ok(_) => {
                proof {
                    assert(store.docs_of(did) =~= olddocs + fvs.take(idx + 1));
                }
                idx = idx + 1;
            },
        }
    }
    proof {
        assert(fvs.take(fvs.len() as int) =~= fvs);
        lemma_good_len(did, olddocs, fvs, fvs.len() as int);
    }
    let new_latest: u64 = match store.latest_version(did) {
        Some(v) => v,
        None => 0,
    };
    Ok(new_latest)
}

/// The position, in a history, of the highest version whose `valid_from`
/// is at or before `t`.
pub open spec fn as_of_index(docs: Seq<DocumentView>, t: u64) -> Option<int>
    decreases docs.len(),
{
    if docs.len() == 0 {
        None
    } else if docs.last().valid_from <= t {
        Some(docs.len() - 1)
    } else {
        as_of_index(docs.drop_last(), t)
    }
}

/// The position a selector picks in a history, if any: the last for
/// `Latest`, the named slot for an explicit version, the highest version
/// in force for `AsOf`.
pub open spec fn selected_index(docs: Seq<DocumentView>, selector: Selector) -> Option<int> {
    match selector {
        Selector::Latest => if docs.len() == 0 {
            None
        } else {
            Some(docs.len() - 1)
        },
        Selector::Version(v) => if 1 <= v <= docs.len() {
            Some(v - 1)
        } else {
            None
        },
        Selector::AsOf(t) => as_of_index(docs, t),
    }
}

/// When every version from `v` on starts after `t`, the `AsOf` answer lies
/// in the first `v` versions.
proof fn lemma_as_of_prefix(docs: Seq<DocumentView>, t: u64, v: int)
    requires
        0 <= v <= docs.len(),
        forall|k: int| v <= k < docs.len() ==> #[trigger] docs[k].valid_from > t,
    ensures
        as_of_index(docs, t) == as_of_index(docs.take(v), t),
    decreases docs.len() - v,
{
    if v == docs.len() {
        assert(docs.take(v) =~= docs);
    } else {
        assert(docs[docs.len() - 1].valid_from > t);
        let shorter = docs.drop_last();
        assert(shorter =~= docs.take(docs.len() - 1));
        lemma_as_of_prefix(shorter, t, v);
        assert(shorter.take(v) =~= docs.take(v));
    }
}

/// Whether resolving this selector needs anything beyond the store: an
/// explicit version already held locally is answered with no fetch at all;
/// everything else must consult the DID's authoritative host first.
pub fn fetch_needed(store: &DocumentStore, did: Did, selector: Selector) -> (b: bool)
    requires
        store.wf(),
    ensures
        b == !(selector matches Selector::Version(v) && 1 <= v <= store.latest_of(did)),
{
    match selector {
        Selector::Version(v) => {
            let latest: u64 = match store.latest_version(did) {
                Some(l) => l,
                None => 0,
            };
            !(1 <= v && v <= latest)
        },
        _ => true,
    }
}

/// Full resolution: ingest the fetched suffix (validating and storing each
/// document in order, stopping at the first failure), then answer the
/// selector from the store.  A document is reported as validated only when
/// every version from the root up to it passed every check; a selector the
/// extended history cannot satisfy is `NotFound`.
#[verifier::rlimit(100)]
pub fn resolve_full(
    store: &mut DocumentStore,
    did: Did,
    selector: Selector,
    fetched: &Vec<DidDocument>,
) -> (r: Result<Resolution, ResolveError>)
    requires
        old(store).wf(),
    ensures
        final(store).wf(),
        final(store).docs_of(did) =~= old(store).docs_of(did) + fetched.deep_view().take(
            good_len(did, old(store).docs_of(did), fetched.deep_view()),
        ),
        forall|other: Did|
            other != did ==> #[trigger] final(store).docs_of(other) == old(store).docs_of(other),
        fetched@.len() == 0 ==> *final(store) == *old(store),
        ({
            let g = good_len(did, old(store).docs_of(did), fetched.deep_view());
            if g < fetched.deep_view().len() {
                let docs_at = old(store).docs_of(did) + fetched.deep_view().take(g);
                r == Err::<Resolution, ResolveError>(
                    ResolveError::InvalidChain {
                        version_id: fetched.deep_view()[g].version_id,
                        kind: reject_kind(did, docs_at, fetched.deep_view()[g]),
                    },
                )
            } else {
                match selected_index(final(store).docs_of(did), selector) {
                    Some(ix) => r matches Ok(res) && res.document@ == final(store).docs_of(did)[ix]
                        && res.status == TrustStatus::Validated,
                    None => r == Err::<Resolution, ResolveError>(ResolveError::NotFound),
                }
            }
        }),
{
    if let Err(e) = extend_with_fetched(store, did, fetched) {
        return Err(e);
    }
    select_from_store(store, did, selector)
}

/// Answers a selector from the store alone: the stored document the
/// selector picks, reported as validated, or `NotFound` when the stored
/// history cannot satisfy it.
pub fn select_from_store(store: &DocumentStore, did: Did, selector: Selector) -> (r: Result<
    Resolution,
    ResolveError,
>)
    requires
        store.wf(),
    ensures
        (match selected_index(store.docs_of(did), selector) {
            Some(ix) => r matches Ok(res) && res.document@ == store.docs_of(did)[ix] && res.status
                == TrustStatus::Validated,
            None => r == Err::<Resolution, ResolveError>(ResolveError::NotFound),
        }),
{
    let docs = store.get_all(did);
    match select_position(&docs, selector) {
        Some(ix) => Ok(Resolution { document: docs[ix].clone(), status: TrustStatus::Validated }),
        None => Err(ResolveError::NotFound),
    }
}

/// The position a selector picks in a document list, if any.
pub fn select_position(docs: &Vec<DidDocument>, selector: Selector) -> (r: Option<usize>)
    ensures
        (match r {
            Some(ix) => ix < docs@.len() && selected_index(docs.deep_view(), selector) == Some(
                ix as int,
            ),
            None => selected_index(docs.deep_view(), selector) is None,
        }),
{
    let ghost dv = docs.deep_view();
    match selector {
        Selector::Latest => {
            if docs.len() == 0 {
                None
            } else {
                Some(docs.len() - 1)
            }
        },
        Selector::Version(v) => {
            if 1 <= v && v <= docs.len() as u64 {
                Some((v - 1) as usize)
            } else {
                None
            }
        },
        Selector::AsOf(t) => {
            let mut v: usize = docs.len();
            while v > 0
                invariant
                    v <= docs.len(),
                    dv == docs.deep_view(),
                    selector == Selector::AsOf(t),
                    forall|k: int| v <= k < dv.len() ==> #[trigger] dv[k].valid_from > t,
                decreases v,
            {
                if docs[v - 1].valid_from <= t {
                    proof {
                        lemma_as_of_prefix(dv, t, v as int);
                        assert(dv[v - 1] == docs@[v - 1]@);
                        assert(dv.take(v as int).last() == dv[v - 1]);
                        assert(as_of_index(dv.take(v as int), t) == Some(v - 1));
                    }
                    return Some(v - 1);
                }
                v = v - 1;
            }
            proof {
                lemma_as_of_prefix(dv, t, 0);
                assert(dv.take(0) =~= Seq::<DocumentView>::empty());
            }
            None
        },
    }
}

/// Thin resolution: the configured gateway's answer, returned unmodified —
/// document, trust status and errors alike.  No local chain check runs;
/// trust is placed transitively in the gateway.
pub fn resolve_thin(gateway_answer: Result<Resolution, ResolveError>) -> (r: Result<
    Resolution,
    ResolveError,
>)
    ensures
        r == gateway_answer,
{
    gateway_answer
}

/// Raw resolution: whatever the host returned, unvalidated — even content
/// that no chain check would accept.  For diagnostics only; callers must
/// not treat the output as authoritative.
pub fn resolve_raw(fetched: Option<DidDocument>) -> (r: Result<Resolution, ResolveError>)
    ensures
        (match fetched {
            Some(d) => r matches Ok(res) && res.document == d && res.status
                == TrustStatus::Unvalidated,
            None => r == Err::<Resolution, ResolveError>(ResolveError::NotFound),
        }),
{
    match fetched {
        Some(d) => Ok(Resolution { document: d, status: TrustStatus::Unvalidated }),
        None => Err(ResolveError::NotFound),
    }
}

} // verus!
