use chromadb::client::{resolve_endpoint, resolve_tenant, ChromaClient, ChromaClientOptions};
use chromadb::collection::{apply_query_outcome, resolve_query_embeddings, ChromaCollection, GetOptions, QueryOptions};
use chromadb::embeddings::MockEmbeddingProvider;
use chromadb::entries::CollectionEntries;
use chromadb::error::ChromaError;
use chromadb::transport::{HttpMethod, RequestBody, UrlScope};
use chromadb::url::{collection_path, database_url, identity_url};
use chromadb::ChromaAuthMethod;

fn test_client() -> ChromaClient {
    ChromaClient::new(
        "http://localhost:8000",
        ChromaAuthMethod::NoAuth,
        "default_tenant".to_string(),
        "default_database".to_string(),
    )
}

#[test]
fn tenant_wildcard_is_normalized() {
    assert_eq!(resolve_tenant("*".to_string()), "default_tenant");
    assert_eq!(resolve_tenant("acme".to_string()), "acme");
}

#[test]
fn endpoint_precedence_chain() {
    assert_eq!(
        resolve_endpoint(Some("http://a".into()), Some("http://b".into()), Some("http://c".into())),
        "http://a"
    );
    assert_eq!(
        resolve_endpoint(None, Some("http://b".into()), Some("http://c".into())),
        "http://b"
    );
    assert_eq!(resolve_endpoint(None, None, Some("http://c".into())), "http://c");
    assert_eq!(resolve_endpoint(None, None, None), "http://localhost:8000");
}

#[test]
fn default_options() {
    let opts = ChromaClientOptions::default();
    assert!(opts.url.is_none());
    assert!(matches!(opts.auth, ChromaAuthMethod::NoAuth));
    assert_eq!(opts.database, "default_database");
}

#[test]
fn client_builds_versioned_endpoints() {
    let c = test_client();
    assert_eq!(c.api_endpoint, "http://localhost:8000/api/v2");
    assert_eq!(c.api_endpoint_v1, "http://localhost:8000/api/v1");
}

#[test]
fn urls_are_assembled() {
    assert_eq!(
        identity_url("http://localhost:8000"),
        "http://localhost:8000/api/v2/auth/identity"
    );
    assert_eq!(
        database_url("http://h/api/v2", "t", "db", "/collections"),
        "http://h/api/v2/tenants/t/databases/db/collections"
    );
    assert_eq!(collection_path("123", "/add"), "/collections/123/add");
    let c = test_client();
    assert_eq!(
        c.url_for(UrlScope::Database, "/collections"),
        "http://localhost:8000/api/v2/tenants/default_tenant/databases/default_database/collections"
    );
    assert_eq!(
        c.url_for(UrlScope::V1, "/heartbeat"),
        "http://localhost:8000/api/v1/heartbeat"
    );
}

#[test]
fn create_collection_request_shape() {
    let c = test_client();
    let r = c.create_collection_request("octopus", None, false);
    assert!(matches!(r.method, HttpMethod::Post));
    assert!(matches!(r.scope, UrlScope::Database));
    assert_eq!(r.path, "/collections");
    match r.body {
        Some(RequestBody::CreateCollection(p)) => {
            assert_eq!(p.name, "octopus");
            assert!(p.metadata.is_none());
            assert!(!p.get_or_create);
        }
        _ => panic!("expected a create-collection body"),
    }
}

#[test]
fn get_or_create_sets_the_flag() {
    let c = test_client();
    let r = c.get_or_create_collection_request("octopus", None);
    match r.body {
        Some(RequestBody::CreateCollection(p)) => assert!(p.get_or_create),
        _ => panic!("expected a create-collection body"),
    }
}

#[test]
fn collection_level_requests() {
    let c = test_client();
    let list = c.list_collections_request();
    assert!(matches!(list.method, HttpMethod::Get));
    assert_eq!(list.path, "/collections");
    assert!(list.body.is_none());

    let get = c.get_collection_request("100-recipes-for-octopus");
    assert!(matches!(get.method, HttpMethod::Get));
    assert_eq!(get.path, "/collections/100-recipes-for-octopus");

    let del = c.delete_collection_request("6-recipies-for-octopus");
    assert!(matches!(del.method, HttpMethod::Delete));
    assert_eq!(del.path, "/collections/6-recipies-for-octopus");

    let version = c.version_request();
    assert!(matches!(version.scope, UrlScope::V1));
    assert_eq!(version.path, "/version");

    let heartbeat = c.heartbeat_request();
    assert!(matches!(heartbeat.scope, UrlScope::V1));
    assert_eq!(heartbeat.path, "/heartbeat");

    let reset = c.reset_request();
    assert!(matches!(reset.method, HttpMethod::Post));
    assert!(matches!(reset.scope, UrlScope::V1));
    assert_eq!(reset.path, "/reset");
    assert!(reset.body.is_none());
}

#[test]
fn collection_fields_round_trip() {
    // The client-side half of the create-then-fetch round trip: a
    // collection built from the server's fields reports them unchanged,
    // and a second one built from the same fields is indistinguishable.
    let mut meta = serde_json::Map::new();
    meta.insert("test".to_string(), serde_json::Value::String("test".to_string()));
    let a = ChromaCollection::new("uuid-1".to_string(), "octopus".to_string(), Some(meta.clone()));
    assert_eq!(a.id(), "uuid-1");
    assert_eq!(a.name(), "octopus");
    assert_eq!(a.metadata(), Some(&meta));
    let b = ChromaCollection::new("uuid-1".to_string(), "octopus".to_string(), Some(meta.clone()));
    assert_eq!(a.id(), b.id());
    assert_eq!(a.name(), b.name());
    assert_eq!(a.metadata(), b.metadata());
}

#[test]
fn entry_requests_validate_first() {
    let col = ChromaCollection::new("cid".to_string(), "c".to_string(), None);
    let bad = CollectionEntries {
        ids: vec!["test1".to_string()],
        metadatas: None,
        documents: None,
        embeddings: None,
    };
    let r = col.add_request(bad, Some(&MockEmbeddingProvider));
    assert!(matches!(r, Err(ChromaError::MissingContent)));

    let good = CollectionEntries {
        ids: vec!["test1".to_string(), "test2".to_string()],
        metadatas: None,
        documents: Some(vec!["Document content 1".to_string(), "Document content 2".to_string()]),
        embeddings: None,
    };
    let req = col.add_request(good, Some(&MockEmbeddingProvider)).unwrap();
    assert_eq!(req.path, "/collections/cid/add");
    match req.body {
        Some(RequestBody::Entries(n)) => {
            assert_eq!(n.ids.len(), 2);
            let emb = n.embeddings.expect("normalized batch carries embeddings");
            assert_eq!(emb.len(), 2);
        }
        _ => panic!("expected an entries body"),
    }

    let upsert = CollectionEntries {
        ids: vec!["u1".to_string()],
        metadatas: None,
        documents: None,
        embeddings: Some(vec![vec![7]]),
    };
    let req = col.upsert_request(upsert, None::<&MockEmbeddingProvider>).unwrap();
    assert_eq!(req.path, "/collections/cid/upsert");

    let update = CollectionEntries {
        ids: vec!["u1".to_string()],
        metadatas: None,
        documents: None,
        embeddings: None,
    };
    let req = col.update_request(update, None::<&MockEmbeddingProvider>).unwrap();
    assert_eq!(req.path, "/collections/cid/update");
}

#[test]
fn get_peek_delete_requests() {
    let col = ChromaCollection::new("cid".to_string(), "c".to_string(), None);
    let get = col.get_request(GetOptions {
        ids: vec!["x".to_string()],
        where_metadata: None,
        limit: Some(5),
        offset: Some(2),
        where_document: None,
        included: Some(vec!["documents".to_string()]),
    });
    assert_eq!(get.path, "/collections/cid/get");
    match get.body {
        Some(RequestBody::Get(p)) => {
            assert_eq!(p.ids, vec!["x".to_string()]);
            assert_eq!(p.limit, Some(5));
            assert_eq!(p.offset, Some(2));
            assert!(p.where_metadata.is_none());
            assert_eq!(p.included, Some(vec!["documents".to_string()]));
        }
        _ => panic!("expected a get body"),
    }

    let peek = col.peek_request(10);
    assert_eq!(peek.path, "/collections/cid/get");
    match peek.body {
        Some(RequestBody::Get(p)) => {
            assert!(p.ids.is_empty());
            assert_eq!(p.limit, Some(10));
            assert!(p.offset.is_none() && p.where_document.is_none());
        }
        _ => panic!("expected a get body"),
    }

    let filter: serde_json::Value = serde_json::from_str("{\"color\":\"red\"}").unwrap();
    let del = col.delete_request(Some(vec!["x".to_string()]), Some(filter.clone()), None);
    assert_eq!(del.path, "/collections/cid/delete");
    match del.body {
        Some(RequestBody::Delete(p)) => {
            assert_eq!(p.ids, Some(vec!["x".to_string()]));
            assert_eq!(p.where_metadata, Some(filter));
            assert!(p.where_document.is_none());
        }
        _ => panic!("expected a delete body"),
    }
}

#[test]
fn query_requires_exactly_one_source() {
    // Both sources populated: the conflict is reported before anything
    // else could happen, and no provider is consulted.
    let both = resolve_query_embeddings(
        Some(vec![vec![0; 768], vec![0; 768]]),
        Some(vec!["Writing tests help me find bugs".to_string(), "Running them does not".to_string()]),
        Some(&MockEmbeddingProvider),
    );
    assert!(matches!(both, Err(ChromaError::ConflictingQuerySource)));

    let neither =
        resolve_query_embeddings(None, None, None::<&MockEmbeddingProvider>);
    assert!(matches!(neither, Err(ChromaError::MissingQuerySource)));

    let texts_without_provider = resolve_query_embeddings(
        None,
        Some(vec!["text".to_string()]),
        None::<&MockEmbeddingProvider>,
    );
    assert!(matches!(texts_without_provider, Err(ChromaError::MissingEmbeddingProvider)));

    let passthrough = resolve_query_embeddings(
        Some(vec![vec![1, 2, 3]]),
        None,
        None::<&MockEmbeddingProvider>,
    )
    .unwrap();
    assert_eq!(passthrough, vec![vec![1, 2, 3]]);

    let computed = resolve_query_embeddings(
        None,
        Some(vec!["a".to_string(), "b".to_string()]),
        Some(&MockEmbeddingProvider),
    )
    .unwrap();
    assert_eq!(computed.len(), 2);
    assert!(computed.iter().all(|v| v.len() == 768));
}

#[test]
fn query_outcome_is_exact() {
    // The texts-path post-call half on concrete provider results.
    assert_eq!(apply_query_outcome(Ok(vec![vec![9, 8]])).unwrap(), vec![vec![9, 8]]);
    match apply_query_outcome(Err("down".to_string())) {
        Err(ChromaError::EmbeddingProviderFailed { message }) => assert_eq!(message, "down"),
        other => panic!("expected EmbeddingProviderFailed, got ok={}", other.is_ok()),
    }
}

#[test]
fn query_request_carries_resolved_vectors() {
    let col = ChromaCollection::new("cid".to_string(), "c".to_string(), None);
    let req = col.query_request_resolved(vec![vec![7, 7]], Some(3), None, None, None);
    assert_eq!(req.path, "/collections/cid/query");
    match req.body {
        Some(RequestBody::Query(p)) => {
            assert_eq!(p.query_embeddings, vec![vec![7, 7]]);
            assert_eq!(p.n_results, Some(3));
        }
        _ => panic!("expected a query body"),
    }

    // Through the full path: texts resolved by the mock end up as the
    // body's query_embeddings.
    let req = col
        .query_request(
            QueryOptions {
                query_embeddings: None,
                query_texts: Some(vec!["a".to_string()]),
                n_results: None,
                where_metadata: None,
                where_document: None,
                included: None,
            },
            Some(&MockEmbeddingProvider),
        )
        .unwrap();
    match req.body {
        Some(RequestBody::Query(p)) => {
            assert_eq!(p.query_embeddings.len(), 1);
            assert_eq!(p.query_embeddings[0], vec![0u32; 768]);
        }
        _ => panic!("expected a query body"),
    }
}

#[test]
fn query_request_shape() {
    let col = ChromaCollection::new("cid".to_string(), "c".to_string(), None);
    let conflicted = col.query_request(
        QueryOptions {
            query_embeddings: Some(vec![vec![0; 768]]),
            query_texts: Some(vec!["t".to_string()]),
            n_results: None,
            where_metadata: None,
            where_document: None,
            included: None,
        },
        Some(&MockEmbeddingProvider),
    );
    assert!(matches!(conflicted, Err(ChromaError::ConflictingQuerySource)));

    let req = col
        .query_request(
            QueryOptions {
                query_embeddings: Some(vec![vec![4, 5]]),
                query_texts: None,
                n_results: Some(5),
                where_metadata: None,
                where_document: None,
                included: None,
            },
            None::<&MockEmbeddingProvider>,
        )
        .unwrap();
    assert_eq!(req.path, "/collections/cid/query");
    match req.body {
        Some(RequestBody::Query(p)) => {
            assert_eq!(p.query_embeddings, vec![vec![4, 5]]);
            assert_eq!(p.n_results, Some(5));
        }
        _ => panic!("expected a query body"),
    }
}
