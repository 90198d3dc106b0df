//! The failure taxonomy of the client. Every public operation reports its
//! failures through these types; nothing is logged and swallowed internally.

use vstd::prelude::*;

use crate::strutil::{join_strings, spec_decimal, spec_join, u16_string};

verus! {

/// A failure surfaced to the caller: a local precondition violation detected
/// before any network call, a provider failure, or a server-side rejection.
#[derive(Debug, Clone, PartialEq, Eq)]
pub enum ChromaError {
    /// Add/upsert was given neither embeddings nor documents.
    MissingContent,
    /// Documents were given without embeddings and without a provider.
    MissingEmbeddingProvider,
    /// Both precomputed embeddings and a provider were given.
    ConflictingEmbeddingSource,
    /// The embedding provider failed; its message is kept verbatim.
    EmbeddingProviderFailed { message: String },
    /// Some id in the batch is the empty string.
    EmptyId,
    /// A present optional field does not have one element per id.
    LengthMismatch,
    /// Ids repeat within the batch; the offending ids are listed.
    DuplicateId { ids: Vec<String> },
    /// Both query embeddings and query texts were supplied.
    ConflictingQuerySource,
    /// Neither query embeddings nor query texts were supplied.
    MissingQuerySource,
    /// A request body could not be serialized; fatal for that call.
    Serialization { message: String },
    /// A response had an unexpected shape; fatal for that call, never
    /// retried.
    Deserialization { message: String },
    /// The server answered outside the success range. `body` is the server's
    /// own message, kept verbatim.
    TransportFailure { status: u16, reason: String, body: String },
}

/// The message text of each failure. A server rejection embeds the numeric
/// status, the reason phrase and the server's body, in that order.
pub open spec fn spec_message(e: ChromaError) -> Seq<char> {
    match e {
        ChromaError::MissingContent => "Embeddings and documents cannot both be None"@,
        ChromaError::MissingEmbeddingProvider => "embedding_function cannot be None if documents are provided and embeddings are None"@,
        ChromaError::ConflictingEmbeddingSource => "embedding_function should be None if embeddings are provided"@,
        ChromaError::EmbeddingProviderFailed { message } => "embedding function failed: "@
            + message@,
        ChromaError::EmptyId => "Found empty string in IDs"@,
        ChromaError::LengthMismatch => "IDs, embeddings, metadatas, and documents must all be the same length"@,
        ChromaError::DuplicateId { ids } => "Expected IDs to be unique, found duplicates for: "@
            + spec_join(ids.deep_view(), ", "@),
        ChromaError::ConflictingQuerySource => "You can only provide query_embeddings or query_texts, not both"@,
        ChromaError::MissingQuerySource => "You must provide either query_embeddings or query_texts"@,
        ChromaError::Serialization { message } => "serialization failed: "@ + message@,
        ChromaError::Deserialization { message } => "deserialization failed: "@ + message@,
        ChromaError::TransportFailure { status, reason, body } => spec_decimal(status as int)
            + " "@ + reason@ + ": "@ + body@,
    }
}

impl ChromaError {
    /// Human-readable message for this failure; for a server rejection it
    /// contains the status code and the server's message verbatim.
    pub fn message(&self) -> (r: String)
        ensures
            r@ == spec_message(*self),
    {
        match self {
            ChromaError::MissingContent => "Embeddings and documents cannot both be None".to_owned(),
            ChromaError::MissingEmbeddingProvider => "embedding_function cannot be None if documents are provided and embeddings are None".to_owned(),
            ChromaError::ConflictingEmbeddingSource => "embedding_function should be None if embeddings are provided".to_owned(),
            ChromaError::EmbeddingProviderFailed { message } => {
                let mut s = "embedding function failed: ".to_owned();
                s.append(message.as_str());
                s
            },
            ChromaError::EmptyId => "Found empty string in IDs".to_owned(),
            ChromaError::LengthMismatch => "IDs, embeddings, metadatas, and documents must all be the same length".to_owned(),
            ChromaError::DuplicateId { ids } => {
                let mut s = "Expected IDs to be unique, found duplicates for: ".to_owned();
                let joined = join_strings(ids, ", ");
                s.append(joined.as_str());
                s
            },
            ChromaError::ConflictingQuerySource => "You can only provide query_embeddings or query_texts, not both".to_owned(),
            ChromaError::MissingQuerySource => "You must provide either query_embeddings or query_texts".to_owned(),
            ChromaError::Serialization { message } => {
                let mut s = "serialization failed: ".to_owned();
                s.append(message.as_str());
                s
            },
            ChromaError::Deserialization { message } => {
                let mut s = "deserialization failed: ".to_owned();
                s.append(message.as_str());
                s
            },
            ChromaError::TransportFailure { status, reason, body } => {
                let mut s = u16_string(*status);
                s.append(" ");
                s.append(reason.as_str());
                s.append(": ");
                s.append(body.as_str());
                s
            },
        }
    }
}

/// Error surface kept from the public API: a plain message carrier for
/// callers that only want text.
#[derive(Debug, Clone, PartialEq, Eq)]
pub struct ChromaAPIError {
    pub message: String,
}

impl ChromaAPIError {
    /// Wraps a message into a [`ChromaAPIError`].
    pub fn error(message: String) -> (r: ChromaAPIError)
        ensures
            r.message == message,
    {
        ChromaAPIError { message }
    }
}

} // verus!
