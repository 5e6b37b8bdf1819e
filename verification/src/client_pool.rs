//! The pool: in this shim, a holder of one shared client. The backing
//! driver pools connections internally, so popping clones the client handle
//! and pushing destroys the returned one.

use vstd::prelude::*;

use mongodb::sync::Client;

use crate::api::mongoc_server_api_t;
use crate::client::{client_clone, mongoc_client_t};
use crate::error::bson_error_t;

verus! {

/// A handle that hands out client handles cloned from one shared client.
#[allow(non_camel_case_types)]
pub struct mongoc_client_pool_t {
    pub client: Client,
}

impl mongoc_client_pool_t {
    /// Wraps a client built outside the library from the pool's URI.
    pub fn from_client(client: Client) -> (p: mongoc_client_pool_t) {
        mongoc_client_pool_t { client }
    }
}

/// Hands out a client handle cloned from the pool's shared client: the
/// handle refers to the same backing client. Never blocks and never caps.
pub fn mongoc_client_pool_pop(pool: &mongoc_client_pool_t) -> (c: mongoc_client_t)
    ensures
        crate::client::client_id(c.client) == crate::client::client_id(pool.client),
{
    mongoc_client_t { client: client_clone(&pool.client) }
}

/// As `mongoc_client_pool_pop`: cloning always succeeds, so the try form
/// never comes back empty.
pub fn mongoc_client_pool_try_pop(pool: &mongoc_client_pool_t) -> (c: mongoc_client_t)
    ensures
        crate::client::client_id(c.client) == crate::client::client_id(pool.client),
{
    mongoc_client_pool_pop(pool)
}

/// Returns a client to the pool by destroying the cloned handle.
pub fn mongoc_client_pool_push(pool: &mongoc_client_pool_t, client: mongoc_client_t) {
    let _ = pool;
    crate::client::mongoc_client_destroy(client);
}

/// Accepted and ignored: the backing driver exposes no error-interface
/// switch.
pub fn mongoc_client_pool_set_error_api(pool: &mongoc_client_pool_t, api: i32) -> (ok: bool)
    ensures
        ok,
{
    let _ = (pool, api);
    true
}

/// Accepted and ignored: the backing driver manages its own heartbeat
/// cadence.
pub fn mongoc_client_pool_set_min_heartbeat_frequency_msec(
    pool: &mongoc_client_pool_t,
    ms: u64,
) -> (ok: bool)
    ensures
        ok,
{
    let _ = (pool, ms);
    true
}

/// Accepted and ignored: a server-api version cannot be installed on an
/// already-built client.
pub fn mongoc_client_pool_set_server_api(
    pool: &mongoc_client_pool_t,
    api: &mongoc_server_api_t,
    error: &mut bson_error_t,
) -> (ok: bool)
    ensures
        ok,
        *final(error) == *old(error),
{
    let _ = (pool, api);
    true
}

/// Releases the pool and the shared client.
pub fn mongoc_client_pool_destroy(pool: mongoc_client_pool_t) {
    let _ = pool;
}

} // verus!
