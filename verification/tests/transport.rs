use chromadb::auth::{auth_header, ChromaAuthMethod, ChromaTokenHeader};
use chromadb::error::{ChromaAPIError, ChromaError};
use chromadb::strutil::{join_strings, u16_string};
use chromadb::transport::{classify_response, request_headers, HandlePool, POOL_SIZE};

#[test]
fn success_range_passes_body_through() {
    for status in [200u16, 204, 299] {
        let r = classify_response(status, "OK".to_string(), "body".to_string());
        assert_eq!(r.unwrap(), "body");
    }
}

#[test]
fn conflict_is_surfaced_with_status_and_body() {
    // HTTP 409 with the server's own message: the caller sees a
    // TransportFailure whose message contains 409 and that text verbatim.
    let r = classify_response(
        409,
        "Conflict".to_string(),
        "collection already exists".to_string(),
    );
    match r {
        Err(e @ ChromaError::TransportFailure { status, .. }) => {
            assert_eq!(status, 409);
            let msg = e.message();
            assert!(msg.contains("409"));
            assert!(msg.contains("collection already exists"));
            assert_eq!(msg, "409 Conflict: collection already exists");
        }
        _ => panic!("expected TransportFailure"),
    }
}

#[test]
fn status_boundaries() {
    assert!(classify_response(199, "".into(), "".into()).is_err());
    assert!(classify_response(300, "".into(), "".into()).is_err());
    assert!(classify_response(500, "".into(), "".into()).is_err());
}

#[test]
fn decimal_rendering() {
    assert_eq!(u16_string(0), "0");
    assert_eq!(u16_string(9), "9");
    assert_eq!(u16_string(10), "10");
    assert_eq!(u16_string(409), "409");
    assert_eq!(u16_string(65535), "65535");
}

#[test]
fn joining_strings() {
    assert_eq!(join_strings(&vec![], ", "), "");
    assert_eq!(join_strings(&vec!["a".to_string()], ", "), "a");
    assert_eq!(
        join_strings(&vec!["a".to_string(), "b".to_string(), "c".to_string()], ", "),
        "a, b, c"
    );
}

#[test]
fn error_messages_exact() {
    assert_eq!(
        ChromaError::MissingContent.message(),
        "Embeddings and documents cannot both be None"
    );
    assert_eq!(
        ChromaError::LengthMismatch.message(),
        "IDs, embeddings, metadatas, and documents must all be the same length"
    );
    assert_eq!(ChromaError::EmptyId.message(), "Found empty string in IDs");
    assert_eq!(
        ChromaError::DuplicateId { ids: vec!["a".to_string(), "b".to_string()] }.message(),
        "Expected IDs to be unique, found duplicates for: a, b"
    );
    assert_eq!(
        ChromaError::EmbeddingProviderFailed { message: "boom".to_string() }.message(),
        "embedding function failed: boom"
    );
    assert_eq!(
        ChromaError::ConflictingQuerySource.message(),
        "You can only provide query_embeddings or query_texts, not both"
    );
    assert_eq!(
        ChromaError::MissingQuerySource.message(),
        "You must provide either query_embeddings or query_texts"
    );
    assert_eq!(
        ChromaError::Serialization { message: "bad".to_string() }.message(),
        "serialization failed: bad"
    );
    assert_eq!(
        ChromaError::Deserialization { message: "bad".to_string() }.message(),
        "deserialization failed: bad"
    );
    assert_eq!(
        ChromaError::MissingEmbeddingProvider.message(),
        "embedding_function cannot be None if documents are provided and embeddings are None"
    );
    assert_eq!(
        ChromaError::ConflictingEmbeddingSource.message(),
        "embedding_function should be None if embeddings are provided"
    );
}

#[test]
fn api_error_carries_message() {
    let e = ChromaAPIError::error("something failed".to_string());
    assert_eq!(e.message, "something failed");
}

#[test]
fn no_auth_attaches_nothing() {
    assert!(auth_header(&ChromaAuthMethod::NoAuth).is_none());
    let headers = request_headers(&ChromaAuthMethod::NoAuth, false);
    assert!(headers.is_empty());
}

#[test]
fn basic_auth_encodes_credentials() {
    // base64("user:pass") with the standard padded alphabet; this fails if
    // the encoder were to hand its input back unchanged.
    let auth = ChromaAuthMethod::BasicAuth {
        username: "user".to_string(),
        password: "pass".to_string(),
    };
    let (name, value) = auth_header(&auth).unwrap();
    assert_eq!(name, "Authorization");
    assert_eq!(value, "Basic dXNlcjpwYXNz");
}

#[test]
fn bearer_token_header() {
    let auth = ChromaAuthMethod::TokenAuth {
        token: "SECRET-REDACTED".to_string(),
        header: ChromaTokenHeader::Authorization,
    };
    let (name, value) = auth_header(&auth).unwrap();
    assert_eq!(name, "Authorization");
    assert_eq!(value, format!("Bearer {}", "SECRET-REDACTED"));
}

#[test]
fn custom_token_header() {
    let auth = ChromaAuthMethod::TokenAuth {
        token: "SECRET-REDACTED".to_string(),
        header: ChromaTokenHeader::XChromaToken,
    };
    let (name, value) = auth_header(&auth).unwrap();
    assert_eq!(name, "X-Chroma-Token");
    assert_eq!(value, "SECRET-REDACTED");
}

#[test]
fn content_type_only_with_body() {
    let auth = ChromaAuthMethod::BasicAuth {
        username: "u".to_string(),
        password: "p".to_string(),
    };
    let with_body = request_headers(&auth, true);
    assert_eq!(with_body.len(), 2);
    assert_eq!(with_body[1].0, "Content-Type");
    assert_eq!(with_body[1].1, "application/json");
    let without = request_headers(&auth, false);
    assert_eq!(without.len(), 1);
    assert_eq!(without[0].0, "Authorization");
}

#[test]
fn pool_hands_back_most_recent_handle() {
    let mut pool: HandlePool<u64> = HandlePool::new();
    assert_eq!(pool.len(), 0);
    assert!(pool.acquire().is_none());
    for h in 0..POOL_SIZE as u64 {
        pool.release(h);
    }
    assert_eq!(pool.len(), POOL_SIZE);
    let first = pool.acquire().unwrap();
    assert_eq!(first, POOL_SIZE as u64 - 1);
    assert_eq!(pool.len(), POOL_SIZE - 1);
    pool.release(first);
    assert_eq!(pool.acquire().unwrap(), first);
}
