//! Client-side core of a ChromaDB client: entry validation, query
//! resolution, authentication headers, URL construction, request shaping
//! and response classification. The network transport consumes the shaped
//! requests outside this crate.

pub mod auth;
pub mod client;
pub mod collection;
pub mod commons;
pub mod embeddings;
pub mod entries;
pub mod error;
pub mod strutil;
pub mod transport;
pub mod url;

pub use auth::{ChromaAuthMethod, ChromaTokenHeader};
pub use client::{ChromaClient, ChromaClientOptions};
pub use collection::{ChromaCollection, GetOptions, QueryOptions};
pub use entries::CollectionEntries;
pub use error::{ChromaAPIError, ChromaError};
