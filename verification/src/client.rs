//! The client handle and the namespace factories under it. Building a client
//! touches the network (URI resolution), so it happens outside the library;
//! the handle is wrapped here and every namespace handle is derived from it
//! through the backing driver's factory calls, which only compute.

use vstd::prelude::*;

use mongodb::bson::raw::RawDocumentBuf;
use mongodb::sync::{Client, Collection, Database};

use crate::cursor::mongoc_cursor_t;
use crate::error::{bson_error_t, bson_set_error, MONGOC_ERROR_DOMAIN_UNSUPPORTED};
use crate::read_concern::mongoc_read_concern_t;
use crate::read_pref::mongoc_read_prefs_t;
use crate::write_concern::mongoc_write_concern_t;

verus! {

/// The code placed in the error record by operations the backing driver does
/// not expose.
pub const MONGOC_ERROR_CODE_UNSUPPORTED: u32 = 4;

#[verifier::external_type_specification]
#[verifier::external_body]
pub struct ExClient(Client);

#[verifier::external_type_specification]
#[verifier::external_body]
pub struct ExDatabase(Database);

#[verifier::external_type_specification]
#[verifier::external_body]
#[verifier::reject_recursive_types(T)]
pub struct ExCollection<T>(Collection<T>);

/// Which backing client a handle refers to: clones share it.
pub uninterp spec fn client_id(c: Client) -> int;

/// The name a database handle is scoped to.
pub uninterp spec fn database_name(d: Database) -> Seq<char>;

/// The database a collection handle is scoped to.
pub uninterp spec fn collection_db(c: Collection<RawDocumentBuf>) -> Seq<char>;

/// The name a collection handle is scoped to.
pub uninterp spec fn collection_name(c: Collection<RawDocumentBuf>) -> Seq<char>;

/// Relies on `Client::database`: a handle to the database of that name.
#[verifier::external_body]
pub fn client_database(client: &Client, name: &str) -> (d: Database)
    ensures
        database_name(d) == name@,
{
    client.database(name)
}

/// Relies on `Database::collection`: a handle to the collection of that name
/// inside this database.
#[verifier::external_body]
pub fn database_collection(db: &Database, name: &str) -> (c: Collection<RawDocumentBuf>)
    ensures
        collection_db(c) == database_name(*db),
        collection_name(c) == name@,
{
    db.collection(name)
}

/// Relies on `Collection::clone`: another handle to the same namespace.
#[verifier::external_body]
pub fn collection_clone(c: &Collection<RawDocumentBuf>) -> (r: Collection<RawDocumentBuf>)
    ensures
        collection_db(r) == collection_db(*c),
        collection_name(r) == collection_name(*c),
{
    c.clone()
}

/// Relies on `Collection::namespace` and its rendering: the database and
/// collection names joined by a dot.
#[verifier::external_body]
pub fn collection_namespace_string(c: &Collection<RawDocumentBuf>) -> (r: String)
    ensures
        r@ == collection_db(*c) + "."@ + collection_name(*c),
{
    format!("{}", c.namespace())
}

/// Relies on `Database::clone`: another handle to the same database.
#[verifier::external_body]
pub fn database_clone(d: &Database) -> (r: Database)
    ensures
        database_name(r) == database_name(*d),
{
    d.clone()
}

/// Relies on `Client::clone`: another handle to the same shared client.
#[verifier::external_body]
pub fn client_clone(client: &Client) -> (r: Client)
    ensures
        client_id(r) == client_id(*client),
{
    client.clone()
}

/// A long-lived handle to the backing driver's client.
#[allow(non_camel_case_types)]
pub struct mongoc_client_t {
    pub client: Client,
}

impl mongoc_client_t {
    /// Wraps a client built outside the library from a connection string.
    pub fn from_client(client: Client) -> (c: mongoc_client_t) {
        mongoc_client_t { client }
    }
}

/// A fresh handle to the database of that name, sharing the client.
pub fn mongoc_client_get_database(client: &mongoc_client_t, db_name: &str) -> (d:
    crate::database::mongoc_database_t)
    ensures
        database_name(d.database) == db_name@,
        client_id(d.client) == client_id(client.client),
{
    crate::database::mongoc_database_t {
        client: client_clone(&client.client),
        database: client_database(&client.client, db_name),
    }
}

/// A fresh handle to the collection of that name in that database.
pub fn mongoc_client_get_collection(
    client: &mongoc_client_t,
    db_name: &str,
    coll_name: &str,
) -> (c: crate::collection::mongoc_collection_t)
    ensures
        collection_db(c.collection) == db_name@,
        collection_name(c.collection) == coll_name@,
        client_id(c.client) == client_id(client.client),
        c.wf(),
{
    let db = client_database(&client.client, db_name);
    let collection = database_collection(&db, coll_name);
    crate::collection::mongoc_collection_t {
        client: client_clone(&client.client),
        database: db,
        collection,
    }
}

/// Unsupported: the backing driver does not expose a client-level read
/// concern to read back.
pub fn mongoc_client_get_read_concern(client: &mongoc_client_t) -> (r: Option<
    &mongoc_read_concern_t,
>)
    ensures
        r is None,
{
    let _ = client;
    None
}

/// Unsupported: the backing driver does not expose client-level read
/// preferences to read back.
pub fn mongoc_client_get_read_prefs(client: &mongoc_client_t) -> (r: Option<&mongoc_read_prefs_t>)
    ensures
        r is None,
{
    let _ = client;
    None
}

/// Unsupported: the backing driver does not expose a client-level write
/// concern to read back.
pub fn mongoc_client_get_write_concern(client: &mongoc_client_t) -> (r: Option<
    &mongoc_write_concern_t,
>)
    ensures
        r is None,
{
    let _ = client;
    None
}

/// Unsupported: per-server descriptions are not exposed by the backing
/// driver; the error record says so.
pub fn mongoc_client_get_server_description(
    client: &mongoc_client_t,
    server_id: u32,
    error: &mut bson_error_t,
) -> (r: Option<mongoc_cursor_t>)
    ensures
        r is None,
        final(error).domain == MONGOC_ERROR_DOMAIN_UNSUPPORTED,
        final(error).wf(),
{
    let _ = (client, server_id);
    bson_set_error(
        error,
        MONGOC_ERROR_DOMAIN_UNSUPPORTED,
        MONGOC_ERROR_CODE_UNSUPPORTED,
        "server descriptions are not exposed by the backing driver".as_bytes(),
    );
    None
}

/// Unsupported: change streams are not exposed by the backing driver; the
/// error record says so.
pub fn mongoc_client_watch(
    client: &mongoc_client_t,
    pipeline: &crate::bson::bson_t,
    opts: Option<&crate::bson::bson_t>,
    error: &mut bson_error_t,
) -> (r: Option<mongoc_cursor_t>)
    ensures
        r is None,
        final(error).domain == MONGOC_ERROR_DOMAIN_UNSUPPORTED,
        final(error).wf(),
{
    let _ = (client, pipeline, opts);
    bson_set_error(
        error,
        MONGOC_ERROR_DOMAIN_UNSUPPORTED,
        MONGOC_ERROR_CODE_UNSUPPORTED,
        "change streams are not exposed by the backing driver".as_bytes(),
    );
    None
}

/// Releases the handle.
pub fn mongoc_client_destroy(client: mongoc_client_t) {
    let _ = client;
}

} // verus!
