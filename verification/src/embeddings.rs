//! The embedding-provider capability and the providers shipped with the
//! library. A provider turns an ordered sequence of texts into one numeric
//! vector per text; it may do I/O, and nothing is assumed of its results.

use vstd::prelude::*;

use crate::commons::{Embedding, Embeddings};

verus! {

/// Capability consumed by the entry validator and the query resolver.
/// Implementations embed each document of `docs`, in order, or fail with
/// their own message, which the caller surfaces verbatim.
pub trait EmbeddingFunction {
    fn embed(&self, docs: &[String]) -> Result<Embeddings, String>;
}

/// Provider for tests and examples: one zero vector of 768 components per
/// document.
#[derive(Clone)]
pub struct MockEmbeddingProvider;

/// One vector as the mock returns it: 768 components, all zero.
pub open spec fn mock_vector(v: Seq<u32>) -> bool {
    v.len() == 768 && forall|j: int| 0 <= j < v.len() ==> v[j] == 0u32
}

/// Builds a zero vector of the given length.
fn zero_vector(len: usize) -> (r: Embedding)
    ensures
        r@.len() == len,
        forall|i: int| 0 <= i < len ==> r@[i] == 0u32,
{
    let mut v: Embedding = Vec::new();
    let mut i: usize = 0;
    while i < len
        invariant
            i <= len,
            v@.len() == i,
            forall|k: int| 0 <= k < i ==> v@[k] == 0u32,
        decreases len - i,
    {
        v.push(0u32);
        i = i + 1;
    }
    v
}

impl EmbeddingFunction for MockEmbeddingProvider {
    /// Always succeeds: one 768-component zero vector per document; the
    /// documents' contents are never read, only their count.
    fn embed(&self, docs: &[String]) -> (r: Result<Embeddings, String>)
        ensures
            r matches Ok(v) && v@.len() == docs@.len() && forall|i: int|
                0 <= i < v@.len() ==> mock_vector(#[trigger] v@[i]@),
    {
        let mut out: Embeddings = Vec::new();
        let mut i: usize = 0;
        while i < docs.len()
            invariant
                i <= docs@.len(),
                out@.len() == i,
                forall|k: int| 0 <= k < i ==> mock_vector(#[trigger] out@[k]@),
            decreases docs@.len() - i,
        {
            out.push(zero_vector(768));
            i = i + 1;
        }
        Ok(out)
    }
}

/// Configuration of the OpenAI-backed provider. The defaults (endpoint,
/// model, key from the process environment) are resolved outside the
/// verified core and handed in as plain values.
pub struct OpenAIConfig {
    pub api_endpoint: String,
    pub api_key: String,
    pub model: String,
}

/// The OpenAI-backed embedding provider. This type carries the
/// configuration; the HTTP calls that implement the capability live outside
/// the verified core.
pub struct OpenAIEmbeddings {
    config: OpenAIConfig,
}

impl OpenAIEmbeddings {
    /// The configuration the provider was built with.
    pub closed spec fn spec_config(&self) -> OpenAIConfig {
        self.config
    }

    /// Builds a provider around the given configuration.
    pub fn new(config: OpenAIConfig) -> (r: OpenAIEmbeddings)
        ensures
            r.spec_config() == config,
    {
        OpenAIEmbeddings { config }
    }

    /// Read access to the configuration, for the layer that makes the calls.
    pub fn config(&self) -> (r: &OpenAIConfig)
        ensures
            *r == self.spec_config(),
    {
        &self.config
    }
}

} // verus!
