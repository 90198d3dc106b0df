//! The entry validator: the client-side rule engine that every mutating
//! collection operation runs before a request is shaped. Given a raw batch
//! and an optional embedding provider it produces a normalized batch, with
//! embeddings populated whenever content was required, or fails fast with
//! the first applicable error.

use vstd::prelude::*;

use crate::commons::{Documents, Embeddings, Metadatas};
use crate::embeddings::EmbeddingFunction;
use crate::error::ChromaError;

verus! {

/// One batch of entries submitted to add, upsert or update. Positions
/// correlate the arrays: element `i` of every present optional field
/// belongs to `ids[i]`. The batch is transient: built by the caller,
/// consumed by validation.
pub struct CollectionEntries {
    pub ids: Vec<String>,
    pub metadatas: Option<Metadatas>,
    pub documents: Option<Documents>,
    pub embeddings: Option<Embeddings>,
}

/// Some id of the batch is the empty string.
pub open spec fn some_empty_id(ids: Seq<Seq<char>>) -> bool {
    exists|i: int| 0 <= i < ids.len() && ids[i].len() == 0
}

/// `x` occurs at two different positions of `ids`.
pub open spec fn duplicated(ids: Seq<Seq<char>>, x: Seq<char>) -> bool {
    exists|i: int, j: int| 0 <= i < j < ids.len() && ids[i] == x && ids[j] == x
}

/// No id occurs twice.
pub open spec fn ids_unique(ids: Seq<Seq<char>>) -> bool {
    forall|i: int, j: int| 0 <= i < j < ids.len() ==> ids[i] != ids[j]
}

/// Every present optional field has exactly one element per id.
pub open spec fn lengths_match(b: CollectionEntries) -> bool {
    &&& (b.embeddings is Some ==> b.embeddings->Some_0@.len() == b.ids@.len())
    &&& (b.metadatas is Some ==> b.metadatas->Some_0@.len() == b.ids@.len())
    &&& (b.documents is Some ==> b.documents->Some_0@.len() == b.ids@.len())
}

/// The first content-resolution failure, if any. These checks run before
/// any embedding is computed, in this order: content required but absent;
/// documents without embeddings and without a provider; both precomputed
/// embeddings and a provider.
pub open spec fn content_failure(
    require: bool,
    has_embeddings: bool,
    has_documents: bool,
    has_provider: bool,
) -> Option<ChromaError> {
    if require && !has_embeddings && !has_documents {
        Some(ChromaError::MissingContent)
    } else if !has_embeddings && has_documents && !has_provider {
        Some(ChromaError::MissingEmbeddingProvider)
    } else if has_embeddings && has_provider {
        Some(ChromaError::ConflictingEmbeddingSource)
    } else {
        None
    }
}

/// Verdict of the shape checks that run once embeddings are resolved:
/// empty ids first, then length equality, then duplicate ids.
pub enum ShapeVerdict {
    Accept,
    RejectEmptyId,
    RejectLengthMismatch,
    RejectDuplicateId,
}

/// Classifies a batch by the first shape check it fails.
pub open spec fn shape_verdict(b: CollectionEntries) -> ShapeVerdict {
    if some_empty_id(b.ids.deep_view()) {
        ShapeVerdict::RejectEmptyId
    } else if !lengths_match(b) {
        ShapeVerdict::RejectLengthMismatch
    } else if !ids_unique(b.ids.deep_view()) {
        ShapeVerdict::RejectDuplicateId
    } else {
        ShapeVerdict::Accept
    }
}

/// Whether some id of the batch is the empty string.
pub fn contains_empty_id(ids: &Vec<String>) -> (r: bool)
    ensures
        r == some_empty_id(ids.deep_view()),
{
    let mut i: usize = 0;
    while i < ids.len()
        invariant
            i <= ids@.len(),
            forall|k: int| 0 <= k < i ==> ids.deep_view()[k].len() != 0,
        decreases ids@.len() - i,
    {
        if ids[i].as_str().is_empty() {
            proof {
                assert(ids.deep_view()[i as int].len() == 0);
            }
            return true;
        }
        i = i + 1;
    }
    false
}

/// Collects the ids that occur more than once: every occurrence after the
/// first is recorded, so callers treat the result as a set.
fn find_duplicates(ids: &Vec<String>) -> (dups: Vec<String>)
    ensures
        forall|x: Seq<char>| #[trigger] dups.deep_view().contains(x) <==> duplicated(
            ids.deep_view(),
            x,
        ),
{
    let ghost dv: Seq<Seq<char>> = ids.deep_view();
    let mut dups: Vec<String> = Vec::new();
    let mut i: usize = 0;
    while i < ids.len()
        invariant
            i <= ids@.len(),
            dv == ids.deep_view(),
            dv.len() == ids@.len(),
            forall|x: Seq<char>| #[trigger] dups.deep_view().contains(x) <==> duplicated(
                dv.take(i as int),
                x,
            ),
        decreases ids@.len() - i,
    {
        let mut j: usize = 0;
        let mut found = false;
        while j < i
            invariant
                j <= i,
                i < ids@.len(),
                dv == ids.deep_view(),
                dv.len() == ids@.len(),
                found <==> exists|k: int| 0 <= k < j && dv[k] == dv[i as int],
            decreases i - j,
        {
            proof {
                assert(dv[j as int] == ids@[j as int]@);
                assert(dv[i as int] == ids@[i as int]@);
            }
            if ids[j] == ids[i] {
                found = true;
            }
            j = j + 1;
        }
        let ghost old_dups: Seq<Seq<char>> = dups.deep_view();
        if found {
            dups.push(ids[i].clone());
            proof {
                assert(dups.deep_view() =~= old_dups.push(dv[i as int]));
            }
        }
        proof {
            let prefix = dv.take(i as int);
            let next = dv.take(i + 1 as int);
            assert(next.drop_last() =~= prefix);
            assert(next.last() == dv[i as int]);
            assert forall|x: Seq<char>| #[trigger] dups.deep_view().contains(x) implies duplicated(
                next,
                x,
            ) by {
                if found && x == dv[i as int] && !old_dups.contains(x) {
                    let k = choose|k: int| 0 <= k < i && dv[k] == dv[i as int];
                    assert(next[k] == x && next[i as int] == x);
                } else {
                    assert(old_dups.contains(x));
                    let (a, b) = choose|a: int, b: int|
                        0 <= a < b < prefix.len() && prefix[a] == x && prefix[b] == x;
                    assert(next[a] == x && next[b] == x);
                }
            }
            assert forall|x: Seq<char>| duplicated(next, x) implies #[trigger] dups.deep_view()
                .contains(x) by {
                let (a, b) = choose|a: int, b: int|
                    0 <= a < b < next.len() && next[a] == x && next[b] == x;
                if b < i {
                    assert(prefix[a] == x && prefix[b] == x);
                    assert(duplicated(prefix, x));
                    assert(old_dups.contains(x));
                    if found {
                        assert(dups.deep_view().contains(x)) by {
                            let w = choose|w: int| 0 <= w < old_dups.len() && old_dups[w] == x;
                            assert(dups.deep_view()[w] == x);
                        }
                    }
                } else {
                    assert(b == i && dv[i as int] == x);
                    assert(dv[a] == x);
                    assert(found);
                    assert(dups.deep_view().last() == x);
                }
            }
        }
        i = i + 1;
    }
    proof {
        assert(dv.take(ids@.len() as int) =~= dv);
    }
    dups
}

/// The batch `b` with `vectors` installed as its embeddings; the other
/// fields are untouched. This is what a provider call-out produces.
pub open spec fn with_embeddings(b: CollectionEntries, vectors: Embeddings) -> CollectionEntries {
    CollectionEntries {
        ids: b.ids,
        metadatas: b.metadatas,
        documents: b.documents,
        embeddings: Some(vectors),
    }
}

/// Exactly what the shape checks return for the batch `b`: the error of
/// the first failed check — empty ids, then lengths, then duplicates,
/// with the duplicated ids enumerated — or the batch unchanged.
pub open spec fn shape_outcome(
    b: CollectionEntries,
    r: Result<CollectionEntries, ChromaError>,
) -> bool {
    let dv = b.ids.deep_view();
    &&& (shape_verdict(b) is RejectEmptyId ==> r == Err::<CollectionEntries, ChromaError>(
        ChromaError::EmptyId,
    ))
    &&& (shape_verdict(b) is RejectLengthMismatch ==> r == Err::<CollectionEntries, ChromaError>(
        ChromaError::LengthMismatch,
    ))
    &&& (shape_verdict(b) is RejectDuplicateId ==> ({
        &&& r matches Err(ChromaError::DuplicateId { ids: d })
        &&& forall|x: Seq<char>| #[trigger] d.deep_view().contains(x) <==> duplicated(dv, x)
    }))
    &&& (shape_verdict(b) is Accept ==> r == Ok::<CollectionEntries, ChromaError>(b))
}

/// Everything `validate` promises of its result `r` for the batch `b`,
/// given whether content was required and whether a provider was supplied.
/// Outcomes that hinge on what the provider returned are pinned down to
/// the set of its possible outcomes; everything else is exact. A caller
/// holding a provider's concrete result gets the exact outcome from
/// [`apply_provider_outcome`], whose contract covers each returned value.
pub open spec fn validate_contract(
    require: bool,
    b: CollectionEntries,
    has_ef: bool,
    r: Result<CollectionEntries, ChromaError>,
) -> bool {
    let dv = b.ids.deep_view();
    let has_emb = b.embeddings is Some;
    let has_docs = b.documents is Some;
    let cf = content_failure(require, has_emb, has_docs, has_ef);
    let compute = !has_emb && has_docs && has_ef;
    &&& (cf matches Some(e) ==> r == Err::<CollectionEntries, ChromaError>(e))
    &&& (cf is None && !compute ==> shape_outcome(b, r))
    &&& (cf is None && compute ==> {
        &&& (r matches Err(e) ==> {
            ||| e matches ChromaError::EmbeddingProviderFailed { .. }
            ||| e == ChromaError::EmptyId && some_empty_id(dv)
            ||| e == ChromaError::LengthMismatch && !some_empty_id(dv)
            ||| e matches ChromaError::DuplicateId { ids: d } && !some_empty_id(dv)
                && !ids_unique(dv) && forall|x: Seq<char>| #[trigger] d.deep_view()
                .contains(x) <==> duplicated(dv, x)
        })
        &&& (some_empty_id(dv) ==> (r matches Err(e) ==> ({
            ||| e matches ChromaError::EmbeddingProviderFailed { .. }
            ||| e == ChromaError::EmptyId
        })))
    })
    &&& (r matches Ok(n) ==> {
        &&& cf is None
        &&& n.ids == b.ids
        &&& n.metadatas == b.metadatas
        &&& n.documents == b.documents
        &&& (compute ==> n.embeddings is Some)
        &&& (!compute ==> n.embeddings == b.embeddings)
        &&& (require ==> n.embeddings is Some)
        &&& (n.documents is Some ==> n.embeddings is Some)
        &&& !some_empty_id(dv)
        &&& lengths_match(n)
        &&& ids_unique(dv)
    })
}

/// Runs the shape checks in their documented order — empty ids, then
/// length equality, then duplicate ids — and returns the batch unchanged
/// when all pass. [`shape_outcome`] states the result exactly.
pub fn check_shape(collection_entries: CollectionEntries) -> (r: Result<
    CollectionEntries,
    ChromaError,
>)
    ensures
        shape_outcome(collection_entries, r),
{
    let CollectionEntries { ids, metadatas, documents, embeddings } = collection_entries;

    if contains_empty_id(&ids) {
        return Err(ChromaError::EmptyId);
    }

    let emb_bad = match &embeddings {
        Some(e) => e.len() != ids.len(),
        None => false,
    };
    let meta_bad = match &metadatas {
        Some(m) => m.len() != ids.len(),
        None => false,
    };
    let docs_bad = match &documents {
        Some(d) => d.len() != ids.len(),
        None => false,
    };
    if emb_bad || meta_bad || docs_bad {
        return Err(ChromaError::LengthMismatch);
    }

    let dups = find_duplicates(&ids);
    if dups.len() > 0 {
        proof {
            let ddv = dups.deep_view();
            assert(ddv.contains(ddv[0]));
        }
        return Err(ChromaError::DuplicateId { ids: dups });
    }
    proof {
        let dv = ids.deep_view();
        if !ids_unique(dv) {
            let (a, b) = choose|a: int, b: int| 0 <= a < b < dv.len() && dv[a] == dv[b];
            assert(duplicated(dv, dv[a]));
            assert(dups.deep_view().contains(dv[a]));
        }
    }

    Ok(CollectionEntries { ids, metadatas, documents, embeddings })
}

/// Settles the provider call-out's outcome, value by value: a failure is
/// propagated verbatim as `EmbeddingProviderFailed`; returned vectors are
/// installed as the batch's embeddings and the shape checks run on the
/// result. `validate`, calling an arbitrary provider, can only bound its
/// outcome; a caller holding a concrete provider result gets the exact
/// one here.
pub fn apply_provider_outcome(
    collection_entries: CollectionEntries,
    outcome: Result<Embeddings, String>,
) -> (r: Result<CollectionEntries, ChromaError>)
    ensures
        outcome matches Err(m) ==> r == Err::<CollectionEntries, ChromaError>(
            ChromaError::EmbeddingProviderFailed { message: m },
        ),
        outcome matches Ok(v) ==> shape_outcome(with_embeddings(collection_entries, v), r),
{
    match outcome {
        Ok(v) => {
            let CollectionEntries { ids, metadatas, documents, embeddings: _ } =
                collection_entries;
            check_shape(CollectionEntries { ids, metadatas, documents, embeddings: Some(v) })
        },
        Err(m) => Err(ChromaError::EmbeddingProviderFailed { message: m }),
    }
}

/// Validates and normalizes one batch, in the documented order: content
/// resolution (including the provider call-out when documents must be
/// embedded), then empty ids, then length equality, then duplicate ids.
/// On success the returned batch carries the ids, metadatas and documents
/// unchanged, with embeddings populated whenever content was required.
/// [`validate_contract`] states the outcome case by case.
pub fn validate<E: EmbeddingFunction>(
    require_embeddings_or_documents: bool,
    collection_entries: CollectionEntries,
    embedding_function: Option<&E>,
) -> (r: Result<CollectionEntries, ChromaError>)
    ensures
        validate_contract(
            require_embeddings_or_documents,
            collection_entries,
            embedding_function is Some,
            r,
        ),
{
    let CollectionEntries { ids, metadatas, documents, embeddings } = collection_entries;

    if require_embeddings_or_documents && embeddings.is_none() && documents.is_none() {
        return Err(ChromaError::MissingContent);
    }
    if embeddings.is_none() && documents.is_some() && embedding_function.is_none() {
        return Err(ChromaError::MissingEmbeddingProvider);
    }
    if embeddings.is_some() && embedding_function.is_some() {
        return Err(ChromaError::ConflictingEmbeddingSource);
    }

    let computed = embeddings.is_none() && documents.is_some() && embedding_function.is_some();
    if computed {
        let provider = match embedding_function {
            Some(p) => p,
            None => { return Err(ChromaError::MissingEmbeddingProvider) },
        };
        let outcome = match &documents {
            Some(d) => provider.embed(d.as_slice()),
            None => { return Err(ChromaError::MissingContent) },
        };
        let ghost o = outcome;
        let rebuilt = CollectionEntries { ids, metadatas, documents, embeddings };
        proof {
            assert(rebuilt == collection_entries);
        }
        let r = apply_provider_outcome(rebuilt, outcome);
        proof {
            if o is Ok {
                let bv = with_embeddings(collection_entries, o->Ok_0);
                assert(bv.ids == collection_entries.ids);
            }
        }
        return r;
    }

    check_shape(CollectionEntries { ids, metadatas, documents, embeddings })
}

/// Law: a batch with neither embeddings nor documents is rejected as
/// `MissingContent` whenever the operation requires content (add and
/// upsert; update does not).
pub proof fn lemma_missing_content_rejected(has_ef: bool)
    ensures
        content_failure(true, false, false, has_ef) == Some(ChromaError::MissingContent),
{
}

/// Law: documents without embeddings and without a provider are rejected
/// as `MissingEmbeddingProvider`, whether or not content was required.
pub proof fn lemma_missing_provider_rejected(require: bool)
    ensures
        content_failure(require, false, true, false) == Some(
            ChromaError::MissingEmbeddingProvider,
        ),
{
}

/// Law: precomputed embeddings together with a provider are rejected as
/// `ConflictingEmbeddingSource`, whatever else the batch holds.
pub proof fn lemma_conflicting_source_rejected(require: bool, has_docs: bool)
    ensures
        content_failure(require, true, has_docs, true) == Some(
            ChromaError::ConflictingEmbeddingSource,
        ),
{
}

/// Law: any batch with an empty-string id fails the shape checks as
/// `EmptyId`, whatever its other fields hold.
pub proof fn lemma_empty_id_rejected(b: CollectionEntries)
    requires
        some_empty_id(b.ids.deep_view()),
    ensures
        shape_verdict(b) is RejectEmptyId,
{
}

/// Law: once no id is empty, a present optional field of the wrong length
/// fails the shape checks as `LengthMismatch`; embeddings, metadatas and
/// documents each trigger it independently.
pub proof fn lemma_length_mismatch_rejected(b: CollectionEntries)
    requires
        !some_empty_id(b.ids.deep_view()),
        !lengths_match(b),
    ensures
        shape_verdict(b) is RejectLengthMismatch,
{
}

/// Law: once no id is empty and all lengths agree, a repeated id fails the
/// shape checks as `DuplicateId`.
pub proof fn lemma_duplicate_id_rejected(b: CollectionEntries)
    requires
        !some_empty_id(b.ids.deep_view()),
        lengths_match(b),
        !ids_unique(b.ids.deep_view()),
    ensures
        shape_verdict(b) is RejectDuplicateId,
{
}

/// Law: validation is idempotent. A batch with the properties that
/// `validate` guarantees of every batch it accepts is accepted again,
/// unchanged, with no provider supplied and no provider invocation.
pub proof fn lemma_validate_idempotent(require: bool, n: CollectionEntries)
    requires
        require ==> n.embeddings is Some,
        n.documents is Some ==> n.embeddings is Some,
        !some_empty_id(n.ids.deep_view()),
        lengths_match(n),
        ids_unique(n.ids.deep_view()),
    ensures
        content_failure(require, n.embeddings is Some, n.documents is Some, false) is None,
        shape_verdict(n) is Accept,
{
}

} // verus!
