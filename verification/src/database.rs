//! The database handle: a namespace-scoped wrapper over the backing driver's
//! database. Command documents are assembled and merged here; running them
//! is network work done outside the library, whose outcome flows back
//! through `command_reply`.

use vstd::prelude::*;

use mongodb::bson::raw::RawDocumentBuf;
use mongodb::options::CreateCollectionOptions;
use mongodb::sync::Database;

use crate::bson::bson_t;
use crate::client::{collection_db, collection_name, database_clone, database_collection,
    database_name, MONGOC_ERROR_CODE_UNSUPPORTED};
use crate::command::{build_command_with_opts, merged_command, opt_elems, opt_iterates};
use crate::error::{bson_error_t, bson_set_error, MONGOC_ERROR_DOMAIN_BSON,
    MONGOC_ERROR_DOMAIN_UNSUPPORTED};
use crate::raw_doc::doc_elems;
use crate::read_concern::mongoc_read_concern_t;
use crate::read_pref::mongoc_read_prefs_t;
use crate::write_concern::mongoc_write_concern_t;

verus! {

#[verifier::external_type_specification]
#[verifier::external_body]
pub struct ExCreateCollectionOptions(CreateCollectionOptions);

/// A namespace-scoped handle holding the backing driver's database, and a
/// handle to the client it came from, through which admin-side commands
/// reach their database.
#[allow(non_camel_case_types)]
pub struct mongoc_database_t {
    pub client: mongodb::sync::Client,
    pub database: Database,
}

/// A fresh handle to the collection of that name inside this database.
pub fn mongoc_database_get_collection(db: &mongoc_database_t, coll_name: &str) -> (c:
    crate::collection::mongoc_collection_t)
    ensures
        collection_db(c.collection) == database_name(db.database),
        collection_name(c.collection) == coll_name@,
        crate::client::client_id(c.client) == crate::client::client_id(db.client),
        c.wf(),
{
    let collection = database_collection(&db.database, coll_name);
    crate::collection::mongoc_collection_t {
        client: crate::client::client_clone(&db.client),
        database: database_clone(&db.database),
        collection,
    }
}

/// The document a database command runs: the command's elements with the
/// options document merged over them, option keys winning. Running the
/// result and interpreting its outcome happen around this call.
pub fn mongoc_database_build_command_with_opts(
    db: &mongoc_database_t,
    command: &bson_t,
    read_pref: Option<&mongoc_read_prefs_t>,
    opts: Option<&bson_t>,
    error: &mut bson_error_t,
) -> (r: Option<RawDocumentBuf>)
    ensures
        (r is Some) == (command@.iterates && opt_iterates(opts)),
        r matches Some(d) ==> doc_elems(d) == merged_command(command@.elems, opt_elems(opts)),
        r is None ==> final(error).domain == MONGOC_ERROR_DOMAIN_BSON && final(error).wf(),
{
    let _ = (db, read_pref);
    build_command_with_opts(command, opts, error)
}

/// Whether a document's bytes deserialize into the driver's
/// create-collection options: a function of the bytes alone. The empty
/// document does.
pub uninterp spec fn create_collection_opts_parse(d: RawDocumentBuf) -> bool;

/// Relies on `bson::from_slice` deserializing create-collection options
/// from document bytes; deserialization is deterministic in the bytes, and
/// the empty document yields the all-default options.
#[verifier::external_body]
pub fn parse_create_collection_options(d: &RawDocumentBuf) -> (r: Option<CreateCollectionOptions>)
    ensures
        (r is Some) == create_collection_opts_parse(*d),
        crate::raw_doc::doc_bytes(*d) == seq![5u8, 0u8, 0u8, 0u8, 0u8] ==> r is Some,
{
    mongodb::bson::from_slice(d.as_bytes()).ok()
}

/// Unsupported: a read concern cannot be set after creation.
pub fn mongoc_database_set_read_concern(
    db: &mongoc_database_t,
    rc: &mongoc_read_concern_t,
) -> (ok: bool)
    ensures
        !ok,
{
    let _ = (db, rc);
    false
}

/// Unsupported: the backing driver does not expose the live value.
pub fn mongoc_database_get_read_concern(db: &mongoc_database_t) -> (r: Option<
    &mongoc_read_concern_t,
>)
    ensures
        r is None,
{
    let _ = db;
    None
}

/// Unsupported: a write concern cannot be set after creation.
pub fn mongoc_database_set_write_concern(
    db: &mongoc_database_t,
    wc: &mongoc_write_concern_t,
) -> (ok: bool)
    ensures
        !ok,
{
    let _ = (db, wc);
    false
}

/// Unsupported: the backing driver does not expose the live value.
pub fn mongoc_database_get_write_concern(db: &mongoc_database_t) -> (r: Option<
    &mongoc_write_concern_t,
>)
    ensures
        r is None,
{
    let _ = db;
    None
}

/// Unsupported: read preferences cannot be set after creation.
pub fn mongoc_database_set_read_prefs(db: &mongoc_database_t, rp: &mongoc_read_prefs_t) -> (ok:
    bool)
    ensures
        !ok,
{
    let _ = (db, rp);
    false
}

/// Unsupported: the backing driver does not expose the live value.
pub fn mongoc_database_get_read_prefs(db: &mongoc_database_t) -> (r: Option<&mongoc_read_prefs_t>)
    ensures
        r is None,
{
    let _ = db;
    None
}

/// Unsupported: change streams are not exposed by the backing driver; the
/// error record says so.
pub fn mongoc_database_watch(
    db: &mongoc_database_t,
    pipeline: &bson_t,
    opts: Option<&bson_t>,
    error: &mut bson_error_t,
) -> (r: Option<crate::cursor::mongoc_cursor_t>)
    ensures
        r is None,
        final(error).domain == MONGOC_ERROR_DOMAIN_UNSUPPORTED,
        final(error).wf(),
{
    let _ = (db, pipeline, opts);
    bson_set_error(
        error,
        MONGOC_ERROR_DOMAIN_UNSUPPORTED,
        MONGOC_ERROR_CODE_UNSUPPORTED,
        "change streams are not exposed by the backing driver".as_bytes(),
    );
    None
}

/// Releases the handle.
pub fn mongoc_database_destroy(db: mongoc_database_t) {
    let _ = db;
}

} // verus!
