//! URL and path construction: the versioned base endpoints, the
//! tenant/database prefix of collection-scoped calls, and collection paths.

use vstd::prelude::*;

verus! {

/// A path suitable for appending to a base URL: non-empty and rooted.
pub open spec fn rooted(path: Seq<char>) -> bool {
    path.len() > 0 && path[0] == '/'
}

/// `{endpoint}/api/v2`, the base of collection-scoped calls.
pub fn api_v2_endpoint(endpoint: &str) -> (r: String)
    ensures
        r@ == endpoint@ + "/api/v2"@,
{
    let mut s = endpoint.to_owned();
    s.append("/api/v2");
    s
}

/// `{endpoint}/api/v1`, the base of the diagnostics calls.
pub fn api_v1_endpoint(endpoint: &str) -> (r: String)
    ensures
        r@ == endpoint@ + "/api/v1"@,
{
    let mut s = endpoint.to_owned();
    s.append("/api/v1");
    s
}

/// `{endpoint}/api/v2/auth/identity`, the identity endpoint queried once
/// per client construction.
pub fn identity_url(endpoint: &str) -> (r: String)
    ensures
        r@ == endpoint@ + "/api/v2/auth/identity"@,
{
    let mut s = endpoint.to_owned();
    s.append("/api/v2/auth/identity");
    s
}

/// `{api_endpoint}/tenants/{tenant}/databases/{database}{path}`, the
/// absolute URL of one database-scoped path.
pub fn database_url(api_endpoint: &str, tenant: &str, database: &str, path: &str) -> (r: String)
    requires
        rooted(path@),
    ensures
        r@ == api_endpoint@ + "/tenants/"@ + tenant@ + "/databases/"@ + database@ + path@,
{
    let mut s = api_endpoint.to_owned();
    s.append("/tenants/");
    s.append(tenant);
    s.append("/databases/");
    s.append(database);
    s.append(path);
    s
}

/// `/collections/{id}{suffix}`: the database-scoped path of one collection
/// operation. The empty suffix addresses the collection itself.
pub fn collection_path(id: &str, suffix: &str) -> (r: String)
    ensures
        r@ == "/collections/"@ + id@ + suffix@,
        rooted(r@),
{
    proof {
        reveal_strlit("/collections/");
    }
    let mut s = "/collections/".to_owned();
    s.append(id);
    s.append(suffix);
    s
}

} // verus!
