//! One collection and its operation surface. The collection is the plain
//! data the server reported (id, name, metadata); every operation shapes a
//! request for the transport, running the entry validator or the query
//! resolver first where the operation calls for it.

use vstd::prelude::*;

use crate::commons::{Embeddings, Metadata};
use crate::embeddings::EmbeddingFunction;
use crate::entries::{validate, validate_contract, CollectionEntries};
use crate::error::ChromaError;
use crate::transport::{
    DeletePayload, GetPayload, HttpMethod, ModifyPayload, PreparedRequest, QueryPayload,
    RequestBody, UrlScope,
};
use crate::url::collection_path;

verus! {

/// One remote collection, as last reported by the server: the
/// server-assigned immutable id, the name and the metadata. The server is
/// the source of truth; this struct is not a cache.
pub struct ChromaCollection {
    id: String,
    metadata: Option<Metadata>,
    name: String,
}

/// Options of the get operation. Fields left `None` are omitted from the
/// request body: a missing key means "no filter" to the server. The filter
/// trees are passed through untouched.
pub struct GetOptions {
    pub ids: Vec<String>,
    pub where_metadata: Option<serde_json::Value>,
    pub limit: Option<usize>,
    pub offset: Option<usize>,
    pub where_document: Option<serde_json::Value>,
    pub included: Option<Vec<String>>,
}

/// Options of the query operation. Exactly one of `query_embeddings` and
/// `query_texts` must end up populated; the resolver enforces it.
pub struct QueryOptions {
    pub query_embeddings: Option<Embeddings>,
    pub query_texts: Option<Vec<String>>,
    pub n_results: Option<usize>,
    pub where_metadata: Option<serde_json::Value>,
    pub where_document: Option<serde_json::Value>,
    pub included: Option<Vec<String>>,
}

/// The first failure of the query-source resolution, if any: both sources;
/// neither source; texts without a provider. The remaining cases embed the
/// texts or pass the caller's embeddings through.
pub open spec fn query_source_failure(
    has_embeddings: bool,
    has_texts: bool,
    has_provider: bool,
) -> Option<ChromaError> {
    if has_embeddings && has_texts {
        Some(ChromaError::ConflictingQuerySource)
    } else if !has_embeddings && !has_texts {
        Some(ChromaError::MissingQuerySource)
    } else if has_texts && !has_provider {
        Some(ChromaError::MissingEmbeddingProvider)
    } else {
        None
    }
}

/// Settles the texts-path provider call-out, value by value: returned
/// vectors become the resolved query embeddings unchanged; a failure is
/// propagated verbatim as `EmbeddingProviderFailed`.
/// `resolve_query_embeddings`, calling an arbitrary provider, can only
/// bound its outcome; a caller holding a concrete provider result gets
/// the exact one here.
pub fn apply_query_outcome(outcome: Result<Embeddings, String>) -> (r: Result<
    Embeddings,
    ChromaError,
>)
    ensures
        outcome matches Ok(v) ==> r == Ok::<Embeddings, ChromaError>(v),
        outcome matches Err(m) ==> r == Err::<Embeddings, ChromaError>(
            ChromaError::EmbeddingProviderFailed { message: m },
        ),
{
    match outcome {
        Ok(v) => Ok(v),
        Err(m) => Err(ChromaError::EmbeddingProviderFailed { message: m }),
    }
}

/// Resolves the embedding source of a query, before any network call:
/// rejects conflicting or missing sources, embeds the texts through the
/// provider when only texts are given, and passes caller-supplied
/// embeddings through unchanged.
pub fn resolve_query_embeddings<E: EmbeddingFunction>(
    query_embeddings: Option<Embeddings>,
    query_texts: Option<Vec<String>>,
    embedding_function: Option<&E>,
) -> (r: Result<Embeddings, ChromaError>)
    ensures
        ({
            let qf = query_source_failure(
                query_embeddings is Some,
                query_texts is Some,
                embedding_function is Some,
            );
            &&& (qf matches Some(e) ==> r == Err::<Embeddings, ChromaError>(e))
            &&& (qf is None ==> (query_embeddings matches Some(e) ==> r == Ok::<
                Embeddings,
                ChromaError,
            >(e)))
            &&& (qf is None && query_embeddings is None ==> (r matches Err(e) ==> e matches
                ChromaError::EmbeddingProviderFailed { .. }))
        }),
{
    if query_embeddings.is_some() && query_texts.is_some() {
        return Err(ChromaError::ConflictingQuerySource);
    }
    if query_embeddings.is_none() && query_texts.is_none() {
        return Err(ChromaError::MissingQuerySource);
    }
    if query_texts.is_some() && embedding_function.is_none() {
        return Err(ChromaError::MissingEmbeddingProvider);
    }
    match query_embeddings {
        Option::Some(e) => Ok(e),
        Option::None => {
            let provider = match embedding_function {
                Option::Some(p) => p,
                Option::None => { return Err(ChromaError::MissingQuerySource) },
            };
            let texts = match &query_texts {
                Option::Some(t) => t,
                Option::None => { return Err(ChromaError::MissingQuerySource) },
            };
            apply_query_outcome(provider.embed(texts.as_slice()))
        },
    }
}

impl ChromaCollection {
    /// The id, as the verifier sees it.
    pub closed spec fn spec_id(&self) -> Seq<char> {
        self.id@
    }

    /// The name, as the verifier sees it.
    pub closed spec fn spec_name(&self) -> Seq<char> {
        self.name@
    }

    /// The metadata, as the verifier sees it.
    pub closed spec fn spec_metadata(&self) -> Option<Metadata> {
        self.metadata
    }

    /// Binds the fields the server reported. The unverified layer calls
    /// this when it deserializes a collection response.
    pub fn new(id: String, name: String, metadata: Option<Metadata>) -> (r: ChromaCollection)
        ensures
            r.spec_id() == id@,
            r.spec_name() == name@,
            r.spec_metadata() == metadata,
    {
        ChromaCollection { id, metadata, name }
    }

    /// Get the UUID of the collection.
    pub fn id(&self) -> (r: &str)
        ensures
            r@ == self.spec_id(),
    {
        self.id.as_str()
    }

    /// Get the name of the collection.
    pub fn name(&self) -> (r: &str)
        ensures
            r@ == self.spec_name(),
    {
        self.name.as_str()
    }

    /// Get the metadata of the collection.
    pub fn metadata(&self) -> (r: Option<&Metadata>)
        ensures
            r is Some <==> self.spec_metadata() is Some,
            r matches Some(m) ==> *m == self.spec_metadata()->Some_0,
    {
        self.metadata.as_ref()
    }

    /// Shapes the count request: `GET /collections/{id}/count`.
    pub fn count_request(&self) -> (r: PreparedRequest)
        ensures
            r.method is Get,
            r.scope is Database,
            r.path@ == "/collections/"@ + self.spec_id() + "/count"@,
            r.body is None,
    {
        PreparedRequest {
            method: HttpMethod::Get,
            scope: UrlScope::Database,
            path: collection_path(self.id.as_str(), "/count"),
            body: Option::None,
        }
    }

    /// Shapes the modify request: `PUT /collections/{id}` carrying the new
    /// name and/or the new metadata; at least one should be meaningful.
    pub fn modify_request(&self, name: Option<String>, metadata: Option<Metadata>) -> (r:
        PreparedRequest)
        ensures
            r.method is Put,
            r.scope is Database,
            r.path@ == "/collections/"@ + self.spec_id() + ""@,
            r.body matches Some(RequestBody::Modify(p)) && p.new_name == name && p.new_metadata
                == metadata,
    {
        PreparedRequest {
            method: HttpMethod::Put,
            scope: UrlScope::Database,
            path: collection_path(self.id.as_str(), ""),
            body: Option::Some(
                RequestBody::Modify(ModifyPayload { new_name: name, new_metadata: metadata }),
            ),
        }
    }

    /// Validates the batch (embeddings or documents required) and shapes
    /// `POST /collections/{id}/add`. The server ignores ids that already
    /// exist. Failures are exactly those of [`validate_contract`].
    pub fn add_request<E: EmbeddingFunction>(
        &self,
        collection_entries: CollectionEntries,
        embedding_function: Option<&E>,
    ) -> (r: Result<PreparedRequest, ChromaError>)
        ensures
            r matches Err(e) ==> validate_contract(
                true,
                collection_entries,
                embedding_function is Some,
                Err(e),
            ),
            r matches Ok(req) ==> ({
                &&& req.method is Post
                &&& req.scope is Database
                &&& req.path@ == "/collections/"@ + self.spec_id() + "/add"@
                &&& req.body matches Some(RequestBody::Entries(n)) && validate_contract(
                    true,
                    collection_entries,
                    embedding_function is Some,
                    Ok(n),
                )
            }),
    {
        let entries = validate(true, collection_entries, embedding_function)?;
        Ok(
            PreparedRequest {
                method: HttpMethod::Post,
                scope: UrlScope::Database,
                path: collection_path(self.id.as_str(), "/add"),
                body: Option::Some(RequestBody::Entries(entries)),
            },
        )
    }

    /// Validates the batch (embeddings or documents required) and shapes
    /// `POST /collections/{id}/upsert`. The server overwrites ids that
    /// already exist. Failures are exactly those of [`validate_contract`].
    pub fn upsert_request<E: EmbeddingFunction>(
        &self,
        collection_entries: CollectionEntries,
        embedding_function: Option<&E>,
    ) -> (r: Result<PreparedRequest, ChromaError>)
        ensures
            r matches Err(e) ==> validate_contract(
                true,
                collection_entries,
                embedding_function is Some,
                Err(e),
            ),
            r matches Ok(req) ==> ({
                &&& req.method is Post
                &&& req.scope is Database
                &&& req.path@ == "/collections/"@ + self.spec_id() + "/upsert"@
                &&& req.body matches Some(RequestBody::Entries(n)) && validate_contract(
                    true,
                    collection_entries,
                    embedding_function is Some,
                    Ok(n),
                )
            }),
    {
        let entries = validate(true, collection_entries, embedding_function)?;
        Ok(
            PreparedRequest {
                method: HttpMethod::Post,
                scope: UrlScope::Database,
                path: collection_path(self.id.as_str(), "/upsert"),
                body: Option::Some(RequestBody::Entries(entries)),
            },
        )
    }

    /// Validates the batch (content fields optional) and shapes
    /// `POST /collections/{id}/update`, a partial update of the listed
    /// ids. Failures are exactly those of [`validate_contract`].
    pub fn update_request<E: EmbeddingFunction>(
        &self,
        collection_entries: CollectionEntries,
        embedding_function: Option<&E>,
    ) -> (r: Result<PreparedRequest, ChromaError>)
        ensures
            r matches Err(e) ==> validate_contract(
                false,
                collection_entries,
                embedding_function is Some,
                Err(e),
            ),
            r matches Ok(req) ==> ({
                &&& req.method is Post
                &&& req.scope is Database
                &&& req.path@ == "/collections/"@ + self.spec_id() + "/update"@
                &&& req.body matches Some(RequestBody::Entries(n)) && validate_contract(
                    false,
                    collection_entries,
                    embedding_function is Some,
                    Ok(n),
                )
            }),
    {
        let entries = validate(false, collection_entries, embedding_function)?;
        Ok(
            PreparedRequest {
                method: HttpMethod::Post,
                scope: UrlScope::Database,
                path: collection_path(self.id.as_str(), "/update"),
                body: Option::Some(RequestBody::Entries(entries)),
            },
        )
    }

    /// Shapes `POST /collections/{id}/get`: ids and/or filters, paging and
    /// the inclusion set, all carried through unchanged.
    pub fn get_request(&self, get_options: GetOptions) -> (r: PreparedRequest)
        ensures
            r.method is Post,
            r.scope is Database,
            r.path@ == "/collections/"@ + self.spec_id() + "/get"@,
            r.body matches Some(RequestBody::Get(p)) && p.ids == get_options.ids
                && p.where_metadata == get_options.where_metadata && p.limit == get_options.limit
                && p.offset == get_options.offset && p.where_document
                == get_options.where_document && p.included == get_options.included,
    {
        let GetOptions { ids, where_metadata, limit, offset, where_document, included } =
            get_options;
        PreparedRequest {
            method: HttpMethod::Post,
            scope: UrlScope::Database,
            path: collection_path(self.id.as_str(), "/get"),
            body: Option::Some(
                RequestBody::Get(
                    GetPayload { ids, where_metadata, limit, offset, where_document, included },
                ),
            ),
        }
    }

    /// Shapes `POST /collections/{id}/get` for the first entries up to
    /// `limit`: the get request with an empty id set and no filters.
    pub fn peek_request(&self, limit: usize) -> (r: PreparedRequest)
        ensures
            r.method is Post,
            r.scope is Database,
            r.path@ == "/collections/"@ + self.spec_id() + "/get"@,
            r.body matches Some(RequestBody::Get(p)) && p.ids@.len() == 0 && p.where_metadata
                is None && p.limit == Some(limit) && p.offset is None && p.where_document is None
                && p.included is None,
    {
        self.get_request(
            GetOptions {
                ids: Vec::new(),
                where_metadata: Option::None,
                limit: Option::Some(limit),
                offset: Option::None,
                where_document: Option::None,
                included: Option::None,
            },
        )
    }

    /// Shapes `POST /collections/{id}/query` around already-resolved
    /// query embeddings: the body carries exactly `resolved` and the
    /// filters unchanged. `query_request` resolves, then calls this; a
    /// caller who resolved the source itself (say through
    /// [`apply_query_outcome`]) gets the exact body here.
    pub fn query_request_resolved(
        &self,
        resolved: Embeddings,
        n_results: Option<usize>,
        where_metadata: Option<serde_json::Value>,
        where_document: Option<serde_json::Value>,
        included: Option<Vec<String>>,
    ) -> (r: PreparedRequest)
        ensures
            r.method is Post,
            r.scope is Database,
            r.path@ == "/collections/"@ + self.spec_id() + "/query"@,
            r.body matches Some(RequestBody::Query(p)) && p.query_embeddings == resolved
                && p.n_results == n_results && p.where_metadata == where_metadata
                && p.where_document == where_document && p.included == included,
    {
        PreparedRequest {
            method: HttpMethod::Post,
            scope: UrlScope::Database,
            path: collection_path(self.id.as_str(), "/query"),
            body: Option::Some(
                RequestBody::Query(
                    QueryPayload {
                        query_embeddings: resolved,
                        n_results,
                        where_metadata,
                        where_document,
                        included,
                    },
                ),
            ),
        }
    }

    /// Resolves the query's embedding source (failing before any network
    /// call on conflicting or missing sources) and shapes
    /// `POST /collections/{id}/query` with the resolved embeddings and the
    /// filters carried through unchanged. With caller-supplied embeddings
    /// nothing outside decides, so the request is owed and shaped; on the
    /// texts path only the provider's failure can stand in the way.
    pub fn query_request<E: EmbeddingFunction>(
        &self,
        query_options: QueryOptions,
        embedding_function: Option<&E>,
    ) -> (r: Result<PreparedRequest, ChromaError>)
        ensures
            ({
                let qf = query_source_failure(
                    query_options.query_embeddings is Some,
                    query_options.query_texts is Some,
                    embedding_function is Some,
                );
                &&& (qf matches Some(e) ==> r == Err::<PreparedRequest, ChromaError>(e))
                &&& (qf is None && query_options.query_embeddings is Some ==> r is Ok)
                &&& (r matches Err(e) ==> qf == Some(e) || e matches
                    ChromaError::EmbeddingProviderFailed { .. })
                &&& (r matches Ok(req) ==> ({
                    &&& qf is None
                    &&& req.method is Post
                    &&& req.scope is Database
                    &&& req.path@ == "/collections/"@ + self.spec_id() + "/query"@
                    &&& req.body matches Some(RequestBody::Query(p))
                    &&& (query_options.query_embeddings matches Some(e) ==> p.query_embeddings
                        == e)
                    &&& p.n_results == query_options.n_results
                    &&& p.where_metadata == query_options.where_metadata
                    &&& p.where_document == query_options.where_document
                    &&& p.included == query_options.included
                }))
            }),
    {
        let QueryOptions {
            query_embeddings,
            query_texts,
            n_results,
            where_metadata,
            where_document,
            included,
        } = query_options;
        let resolved = resolve_query_embeddings(query_embeddings, query_texts, embedding_function)?;
        Ok(self.query_request_resolved(resolved, n_results, where_metadata, where_document, included))
    }

    /// Shapes `POST /collections/{id}/delete`: deletion by ids and/or
    /// filters, all optional and carried through unchanged; with all of
    /// them absent the server deletes the whole contents.
    pub fn delete_request(
        &self,
        ids: Option<Vec<String>>,
        where_metadata: Option<serde_json::Value>,
        where_document: Option<serde_json::Value>,
    ) -> (r: PreparedRequest)
        ensures
            r.method is Post,
            r.scope is Database,
            r.path@ == "/collections/"@ + self.spec_id() + "/delete"@,
            r.body matches Some(RequestBody::Delete(p)) && p.ids == ids && p.where_metadata
                == where_metadata && p.where_document == where_document,
    {
        PreparedRequest {
            method: HttpMethod::Post,
            scope: UrlScope::Database,
            path: collection_path(self.id.as_str(), "/delete"),
            body: Option::Some(
                RequestBody::Delete(DeletePayload { ids, where_metadata, where_document }),
            ),
        }
    }
}

} // verus!
