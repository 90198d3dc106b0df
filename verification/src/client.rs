//! The client: the immutable configuration resolved once at construction
//! (endpoint precedence chain, auth method, tenant, database) and the
//! shaping of every collection-level request.

use vstd::prelude::*;

use crate::auth::ChromaAuthMethod;
use crate::commons::Metadata;
use crate::transport::{
    CreateCollectionPayload, HttpMethod, PreparedRequest, RequestBody, UrlScope,
};
use crate::url::{api_v1_endpoint, api_v2_endpoint, database_url, rooted};

verus! {

/// The options a client is constructed from.
#[derive(Debug)]
pub struct ChromaClientOptions {
    /// The URL of the server; resolved against the environment-provided
    /// fallbacks and the fixed default when absent.
    pub url: Option<String>,
    /// Authentication applied to every request.
    pub auth: ChromaAuthMethod,
    /// Database the client is scoped to.
    pub database: String,
}

impl Default for ChromaClientOptions {
    /// No explicit URL, no authentication, the default database.
    fn default() -> (r: Self)
        ensures
            r.url is None,
            r.auth is NoAuth,
            r.database@ == "default_database"@,
    {
        ChromaClientOptions {
            url: Option::None,
            auth: ChromaAuthMethod::NoAuth,
            database: "default_database".to_owned(),
        }
    }
}

/// The configuration precedence chain for the endpoint, resolved once at
/// construction: the explicit option, then the host variable, then the URL
/// variable, then the fixed default. The caller reads the environment and
/// hands the values in.
pub fn resolve_endpoint(url: Option<String>, env_host: Option<String>, env_url: Option<String>) -> (r:
    String)
    ensures
        url matches Some(u) ==> r == u,
        url is None ==> (env_host matches Some(h) ==> r == h),
        url is None && env_host is None ==> (env_url matches Some(u) ==> r == u),
        url is None && env_host is None && env_url is None ==> r@ == "http://localhost:8000"@,
{
    match url {
        Option::Some(u) => u,
        Option::None => match env_host {
            Option::Some(h) => h,
            Option::None => match env_url {
                Option::Some(u) => u,
                Option::None => "http://localhost:8000".to_owned(),
            },
        },
    }
}

/// Normalizes the tenant the identity endpoint reported: the wildcard
/// sentinel is replaced by the fixed default tenant, anything else is kept.
pub fn resolve_tenant(tenant: String) -> (r: String)
    ensures
        tenant@ == "*"@ ==> r@ == "default_tenant"@,
        tenant@ != "*"@ ==> r@ == tenant@,
{
    let wildcard: String = "*".to_owned();
    if tenant == wildcard {
        "default_tenant".to_owned()
    } else {
        tenant
    }
}

/// A client: the resolved, immutable per-process configuration that every
/// operation and every collection shares read-only.
pub struct ChromaClient {
    /// `{endpoint}/api/v2`.
    pub api_endpoint: String,
    /// `{endpoint}/api/v1`, for the diagnostics calls.
    pub api_endpoint_v1: String,
    /// Authentication applied to every request.
    pub auth: ChromaAuthMethod,
    /// Tenant resolved through the identity endpoint.
    pub tenant: String,
    /// Database the client is scoped to.
    pub database: String,
}

impl ChromaClient {
    /// Binds an endpoint, auth method, resolved tenant and database. The
    /// tenant is the one network-resolved input: the caller obtains it
    /// from the identity endpoint (and `resolve_tenant` normalizes the
    /// wildcard) before construction; construction fails upstream if that
    /// round-trip fails.
    pub fn new(endpoint: &str, auth: ChromaAuthMethod, tenant: String, database: String) -> (r:
        ChromaClient)
        ensures
            r.api_endpoint@ == endpoint@ + "/api/v2"@,
            r.api_endpoint_v1@ == endpoint@ + "/api/v1"@,
            r.auth == auth,
            r.tenant == tenant,
            r.database == database,
    {
        ChromaClient {
            api_endpoint: api_v2_endpoint(endpoint),
            api_endpoint_v1: api_v1_endpoint(endpoint),
            auth,
            tenant,
            database,
        }
    }

    /// The absolute URL of one prepared request's path: database-scoped
    /// paths live under the tenant/database prefix, diagnostics paths
    /// under the v1 endpoint.
    pub fn url_for(&self, scope: UrlScope, path: &str) -> (r: String)
        requires
            rooted(path@),
        ensures
            scope is Database ==> r@ == self.api_endpoint@ + "/tenants/"@ + self.tenant@
                + "/databases/"@ + self.database@ + path@,
            scope is V1 ==> r@ == self.api_endpoint_v1@ + path@,
    {
        match scope {
            UrlScope::Database => database_url(
                self.api_endpoint.as_str(),
                self.tenant.as_str(),
                self.database.as_str(),
                path,
            ),
            UrlScope::V1 => {
                let mut s = self.api_endpoint_v1.clone();
                s.append(path);
                s
            },
        }
    }

    /// Shapes the create-or-get request: `POST /collections` with the
    /// name, the optional metadata and the get-or-create flag.
    pub fn create_collection_request(
        &self,
        name: &str,
        metadata: Option<Metadata>,
        get_or_create: bool,
    ) -> (r: PreparedRequest)
        ensures
            r.method is Post,
            r.scope is Database,
            r.path@ == "/collections"@,
            r.body matches Some(RequestBody::CreateCollection(p)) && p.name@ == name@ && p.metadata
                == metadata && p.get_or_create == get_or_create,
    {
        PreparedRequest {
            method: HttpMethod::Post,
            scope: UrlScope::Database,
            path: "/collections".to_owned(),
            body: Option::Some(
                RequestBody::CreateCollection(
                    CreateCollectionPayload { name: name.to_owned(), metadata, get_or_create },
                ),
            ),
        }
    }

    /// Shapes the get-or-create request: create with the flag set, so an
    /// existing collection of that name is returned instead of an error.
    pub fn get_or_create_collection_request(&self, name: &str, metadata: Option<Metadata>) -> (r:
        PreparedRequest)
        ensures
            r.method is Post,
            r.scope is Database,
            r.path@ == "/collections"@,
            r.body matches Some(RequestBody::CreateCollection(p)) && p.name@ == name@ && p.metadata
                == metadata && p.get_or_create == true,
    {
        self.create_collection_request(name, metadata, true)
    }

    /// Shapes the list request: `GET /collections`, no body.
    pub fn list_collections_request(&self) -> (r: PreparedRequest)
        ensures
            r.method is Get,
            r.scope is Database,
            r.path@ == "/collections"@,
            r.body is None,
    {
        PreparedRequest {
            method: HttpMethod::Get,
            scope: UrlScope::Database,
            path: "/collections".to_owned(),
            body: Option::None,
        }
    }

    /// Shapes the fetch-by-name request: `GET /collections/{name}`.
    pub fn get_collection_request(&self, name: &str) -> (r: PreparedRequest)
        ensures
            r.method is Get,
            r.scope is Database,
            r.path@ == "/collections/"@ + name@,
            r.body is None,
    {
        let mut path = "/collections/".to_owned();
        path.append(name);
        PreparedRequest {
            method: HttpMethod::Get,
            scope: UrlScope::Database,
            path,
            body: Option::None,
        }
    }

    /// Shapes the delete-by-name request: `DELETE /collections/{name}`.
    pub fn delete_collection_request(&self, name: &str) -> (r: PreparedRequest)
        ensures
            r.method is Delete,
            r.scope is Database,
            r.path@ == "/collections/"@ + name@,
            r.body is None,
    {
        let mut path = "/collections/".to_owned();
        path.append(name);
        PreparedRequest {
            method: HttpMethod::Delete,
            scope: UrlScope::Database,
            path,
            body: Option::None,
        }
    }

    /// Shapes the version request: `GET /version` under the v1 endpoint.
    pub fn version_request(&self) -> (r: PreparedRequest)
        ensures
            r.method is Get,
            r.scope is V1,
            r.path@ == "/version"@,
            r.body is None,
    {
        PreparedRequest {
            method: HttpMethod::Get,
            scope: UrlScope::V1,
            path: "/version".to_owned(),
            body: Option::None,
        }
    }

    /// Shapes the reset request: `POST /reset` under the v1 endpoint;
    /// the server deletes all collections and entries, where its
    /// configuration allows it.
    pub fn reset_request(&self) -> (r: PreparedRequest)
        ensures
            r.method is Post,
            r.scope is V1,
            r.path@ == "/reset"@,
            r.body is None,
    {
        PreparedRequest {
            method: HttpMethod::Post,
            scope: UrlScope::V1,
            path: "/reset".to_owned(),
            body: Option::None,
        }
    }

    /// Shapes the heartbeat request: `GET /heartbeat` under the v1
    /// endpoint; the response carries the server's nanosecond clock.
    pub fn heartbeat_request(&self) -> (r: PreparedRequest)
        ensures
            r.method is Get,
            r.scope is V1,
            r.path@ == "/heartbeat"@,
            r.body is None,
    {
        PreparedRequest {
            method: HttpMethod::Get,
            scope: UrlScope::V1,
            path: "/heartbeat".to_owned(),
            body: Option::None,
        }
    }
}

} // verus!
