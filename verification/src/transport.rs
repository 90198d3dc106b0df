//! The transport dispatcher's verified half: request descriptions, the
//! header set each request carries, success classification of responses,
//! and the pool of reusable connection handles. The actual send lives
//! outside the verified core and consumes these descriptions.

use vstd::prelude::*;

use crate::auth::{auth_header, spec_basic_credentials, base64_of, ChromaAuthMethod, ChromaTokenHeader};
use crate::commons::{Embeddings, Metadata};
use crate::entries::CollectionEntries;
use crate::error::ChromaError;

verus! {

/// HTTP methods the client issues.
#[derive(Clone, Copy, Debug, PartialEq, Eq, Structural)]
pub enum HttpMethod {
    Get,
    Post,
    Put,
    Delete,
}

impl HttpMethod {
    /// The wire name of the method.
    pub fn name(&self) -> (r: &'static str)
        ensures
            *self is Get ==> r@ == "GET"@,
            *self is Post ==> r@ == "POST"@,
            *self is Put ==> r@ == "PUT"@,
            *self is Delete ==> r@ == "DELETE"@,
    {
        match self {
            HttpMethod::Get => "GET",
            HttpMethod::Post => "POST",
            HttpMethod::Put => "PUT",
            HttpMethod::Delete => "DELETE",
        }
    }
}

/// Where a request's path is rooted.
#[derive(Clone, Copy, Debug, PartialEq, Eq, Structural)]
pub enum UrlScope {
    /// Under `{endpoint}/api/v2/tenants/{tenant}/databases/{database}`.
    Database,
    /// Under `{endpoint}/api/v1`.
    V1,
}

/// Body of the create-or-get collection operation.
pub struct CreateCollectionPayload {
    pub name: String,
    pub metadata: Option<Metadata>,
    pub get_or_create: bool,
}

/// Body of the modify operation; an absent field is omitted on the wire.
pub struct ModifyPayload {
    pub new_name: Option<String>,
    pub new_metadata: Option<Metadata>,
}

/// Body of the get operation. `None` fields are omitted from the wire, so
/// a missing key means "no filter" to the server.
pub struct GetPayload {
    pub ids: Vec<String>,
    pub where_metadata: Option<serde_json::Value>,
    pub limit: Option<usize>,
    pub offset: Option<usize>,
    pub where_document: Option<serde_json::Value>,
    pub included: Option<Vec<String>>,
}

/// Body of the query operation, after the embedding source is resolved.
/// `None` fields are omitted from the wire.
pub struct QueryPayload {
    pub query_embeddings: Embeddings,
    pub n_results: Option<usize>,
    pub where_metadata: Option<serde_json::Value>,
    pub where_document: Option<serde_json::Value>,
    pub included: Option<Vec<String>>,
}

/// Body of the delete operation. With every field absent the server
/// deletes everything the (empty) filter set matches.
pub struct DeletePayload {
    pub ids: Option<Vec<String>>,
    pub where_metadata: Option<serde_json::Value>,
    pub where_document: Option<serde_json::Value>,
}

/// The JSON body of one request, as typed values; the unverified layer
/// serializes it, omitting every absent optional field.
pub enum RequestBody {
    /// Normalized batch for add, upsert and update.
    Entries(CollectionEntries),
    CreateCollection(CreateCollectionPayload),
    Modify(ModifyPayload),
    Get(GetPayload),
    Query(QueryPayload),
    Delete(DeletePayload),
}

/// One shaped request: everything the transport needs besides the client's
/// resolved endpoint, scope and auth configuration.
pub struct PreparedRequest {
    pub method: HttpMethod,
    pub scope: UrlScope,
    pub path: String,
    pub body: Option<RequestBody>,
}

/// The headers of one request: the single auth header of the configured
/// method, then `Content-Type: application/json` when a body is sent.
pub fn request_headers(auth: &ChromaAuthMethod, has_body: bool) -> (r: Vec<(String, String)>)
    ensures
        ({
            let auth_len: int = if *auth is NoAuth { 0 } else { 1 };
            &&& r@.len() == auth_len + (if has_body { 1int } else { 0 })
            &&& (match *auth {
                ChromaAuthMethod::NoAuth => true,
                ChromaAuthMethod::BasicAuth { username, password } => r@[0].0@
                    == "Authorization"@ && r@[0].1@ == "Basic "@ + base64_of(
                    spec_basic_credentials(username@, password@),
                ),
                ChromaAuthMethod::TokenAuth { token, header } => {
                    match header {
                        ChromaTokenHeader::Authorization => r@[0].0@ == "Authorization"@
                            && r@[0].1@ == "Bearer "@ + token@,
                        ChromaTokenHeader::XChromaToken => r@[0].0@ == "X-Chroma-Token"@
                            && r@[0].1@ == token@,
                    }
                },
            })
            &&& (has_body ==> r@.last().0@ == "Content-Type"@ && r@.last().1@
                == "application/json"@)
        }),
{
    let mut headers: Vec<(String, String)> = Vec::new();
    match auth_header(auth) {
        Option::Some(h) => headers.push(h),
        Option::None => (),
    }
    if has_body {
        headers.push(("Content-Type".to_owned(), "application/json".to_owned()));
    }
    headers
}

/// The success range of the protocol: 200 to 299 inclusive.
pub open spec fn spec_is_success(status: u16) -> bool {
    200 <= status <= 299
}

/// Classifies one received response: a status in the success range passes
/// the body through for deserialization; anything else becomes
/// `TransportFailure` carrying the status, the reason phrase and the
/// server's message verbatim.
pub fn classify_response(status: u16, reason: String, body: String) -> (r: Result<
    String,
    ChromaError,
>)
    ensures
        spec_is_success(status) ==> r == Ok::<String, ChromaError>(body),
        !spec_is_success(status) ==> r == Err::<String, ChromaError>(
            ChromaError::TransportFailure { status, reason, body },
        ),
{
    if 200 <= status && status <= 299 {
        Ok(body)
    } else {
        Err(ChromaError::TransportFailure { status, reason, body })
    }
}

/// How many handles the pool is stocked with at client construction.
pub const POOL_SIZE: usize = 128;

/// A pool of reusable connection handles. `acquire` takes the most
/// recently released handle; `release` puts one back. The element type is
/// the caller's handle type, never inspected here; the caller guards the
/// pool with a short-held lock around these two calls and constructs a
/// fresh handle when `acquire` finds the pool momentarily empty.
pub struct HandlePool<T> {
    handles: Vec<T>,
}

impl<T> View for HandlePool<T> {
    type V = Seq<T>;

    closed spec fn view(&self) -> Seq<T> {
        self.handles@
    }
}

impl<T> HandlePool<T> {
    /// An empty pool.
    pub fn new() -> (r: Self)
        ensures
            r@ == Seq::<T>::empty(),
    {
        HandlePool { handles: Vec::new() }
    }

    /// The number of pooled handles.
    pub fn len(&self) -> (r: usize)
        ensures
            r == self@.len(),
    {
        self.handles.len()
    }

    /// Takes the most recently released handle; `None` when the pool is
    /// momentarily empty, in which case the pool is unchanged and the
    /// caller constructs a fresh handle.
    pub fn acquire(&mut self) -> (r: Option<T>)
        ensures
            old(self)@.len() == 0 ==> r is None && final(self)@ == old(self)@,
            old(self)@.len() > 0 ==> r == Some(old(self)@.last()) && final(self)@ == old(
                self,
            )@.drop_last(),
    {
        let r = self.handles.pop();
        proof {
            if old(self)@.len() > 0 {
                assert(old(self)@.subrange(0, old(self)@.len() - 1) =~= old(self)@.drop_last());
            }
        }
        r
    }

    /// Puts a handle back (also used to stock the pool initially).
    pub fn release(&mut self, handle: T)
        ensures
            final(self)@ == old(self)@.push(handle),
    {
        self.handles.push(handle);
    }
}

} // verus!
