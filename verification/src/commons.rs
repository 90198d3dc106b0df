//! Shared type aliases and declarations of the JSON value types that filters
//! and metadata are carried in. The library never looks inside these values:
//! they travel through request payloads untouched.

use vstd::prelude::*;

verus! {

/// Declares `serde_json::Value` so that it can stand in fields and
/// signatures. Values of it are opaque to the verifier.
#[verifier::external_type_specification]
#[verifier::external_body]
pub struct ExJsonValue(serde_json::Value);

/// Declares `serde_json::Map`, the JSON-object type behind [`Metadata`].
#[verifier::external_type_specification]
#[verifier::external_body]
#[verifier::reject_recursive_types(K)]
#[verifier::reject_recursive_types(V)]
pub struct ExJsonMap<K, V>(serde_json::Map<K, V>);

/// A key-to-scalar mapping attached to a collection or an entry. The server
/// interprets the scalars; the client passes the object through untouched.
pub type Metadata = serde_json::Map<String, serde_json::Value>;

/// One metadata object per entry of a batch.
pub type Metadatas = Vec<Metadata>;

/// One embedding vector. Each component is carried as the raw bit pattern of
/// a 32-bit IEEE-754 number; the unverified transport layer gives the bits
/// their numeric reading when it serializes them.
pub type Embedding = Vec<u32>;

/// One embedding vector per entry of a batch.
pub type Embeddings = Vec<Embedding>;

/// One text blob per entry of a batch.
pub type Documents = Vec<String>;

} // verus!
