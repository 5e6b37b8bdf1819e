//! The iteration handle. Fetching the next document is network work done
//! outside the library; the fetched document is handed back here, where the
//! cursor keeps exactly one current buffer alive until the next fetch or the
//! handle's release.

use vstd::prelude::*;

use mongodb::bson::raw::RawDocumentBuf;
use mongodb::bson::Document;
use mongodb::sync::Cursor;
use mongodb::IndexModel;

use crate::bson::bson_t;
use crate::error::bson_error_t;
use crate::raw_doc::doc_elems;

verus! {

#[verifier::external_type_specification]
#[verifier::external_body]
#[verifier::reject_recursive_types(T)]
pub struct ExCursor<T>(Cursor<T>);

#[verifier::external_type_specification]
#[verifier::external_body]
pub struct ExIndexModel(IndexModel);

/// The stream kinds the backing driver produces: raw documents from a find,
/// structured documents from an aggregate, and index models from an index
/// listing. Whatever the kind, each fetched item is handed back to the
/// handle as one raw document.
pub enum DriverCursor {
    Raw(Cursor<RawDocumentBuf>),
    Doc(Cursor<Document>),
    Index(Cursor<IndexModel>),
}

/// Iteration state over a server result stream, owning the one current
/// document buffer between fetches.
#[allow(non_camel_case_types)]
pub struct mongoc_cursor_t {
    pub cursor: DriverCursor,
    pub current: Option<bson_t>,
}

impl mongoc_cursor_t {
    /// Wraps a find cursor; no document is current yet.
    pub fn from_cursor(cursor: Cursor<RawDocumentBuf>) -> (c: mongoc_cursor_t)
        ensures
            c.current is None,
    {
        mongoc_cursor_t { cursor: DriverCursor::Raw(cursor), current: None }
    }

    /// Wraps an aggregate cursor; no document is current yet.
    pub fn from_doc_cursor(cursor: Cursor<Document>) -> (c: mongoc_cursor_t)
        ensures
            c.current is None,
    {
        mongoc_cursor_t { cursor: DriverCursor::Doc(cursor), current: None }
    }

    /// Wraps an index-listing cursor; no document is current yet.
    pub fn from_index_cursor(cursor: Cursor<IndexModel>) -> (c: mongoc_cursor_t)
        ensures
            c.current is None,
    {
        mongoc_cursor_t { cursor: DriverCursor::Index(cursor), current: None }
    }
}

/// Installs the outcome of one fetch: a document becomes the sole current
/// buffer and the call reports true; exhaustion or failure clears the
/// current buffer and reports false. The previous buffer is released either
/// way, which is why a pointer handed out earlier is valid only until the
/// next fetch.
pub fn mongoc_cursor_accept(cursor: &mut mongoc_cursor_t, fetched: Option<RawDocumentBuf>) -> (ok:
    bool)
    ensures
        ok == (fetched is Some),
        fetched matches Some(d) ==> final(cursor).current matches Some(b) && b@.owned && b@.elems
            == doc_elems(d),
        fetched is None ==> final(cursor).current is None,
{
    match fetched {
        Some(d) => {
            cursor.current = Some(bson_t::from_raw(d));
            true
        },
        None => {
            cursor.current = None;
            false
        },
    }
}

/// The current document, when one is held.
pub fn mongoc_cursor_current(cursor: &mongoc_cursor_t) -> (r: Option<&bson_t>)
    ensures
        (r is Some) == (cursor.current is Some),
        r matches Some(b) ==> cursor.current matches Some(c) && b@ == c@,
{
    match &cursor.current {
        Some(b) => Some(b),
        None => None,
    }
}

/// An optimistic answer, as the legacy interface documents: iteration may
/// still produce more documents.
pub fn mongoc_cursor_more(cursor: &mongoc_cursor_t) -> (r: bool)
    ensures
        r,
{
    let _ = cursor;
    true
}

/// The server-assigned cursor id. The backing driver's synchronous cursor
/// does not expose it in this version, so the no-cursor value is reported.
pub fn mongoc_cursor_get_id(cursor: &mongoc_cursor_t) -> (r: i64)
    ensures
        r == 0,
{
    let _ = cursor;
    0
}

/// No error document is kept; the record is left alone and the call reports
/// that no error is held.
pub fn mongoc_cursor_error_document(
    cursor: &mongoc_cursor_t,
    error: &mut bson_error_t,
    reply: Option<&bson_t>,
) -> (r: bool)
    ensures
        !r,
        *final(error) == *old(error),
{
    let _ = (cursor, reply);
    false
}

/// Unsupported: a cursor cannot be rebuilt from a command reply behind the
/// backing driver; the error record says so.
pub fn mongoc_cursor_new_from_command_reply_with_opts(
    client: &crate::client::mongoc_client_t,
    reply: &bson_t,
    opts: Option<&bson_t>,
    error: &mut bson_error_t,
) -> (r: Option<mongoc_cursor_t>)
    ensures
        r is None,
        final(error).domain == crate::error::MONGOC_ERROR_DOMAIN_UNSUPPORTED,
        final(error).wf(),
{
    let _ = (client, reply, opts);
    crate::error::bson_set_error(
        error,
        crate::error::MONGOC_ERROR_DOMAIN_UNSUPPORTED,
        crate::client::MONGOC_ERROR_CODE_UNSUPPORTED,
        "cursors cannot be rebuilt from command replies".as_bytes(),
    );
    None
}

/// Releases the handle and the current buffer with it.
pub fn mongoc_cursor_destroy(cursor: mongoc_cursor_t) {
    let _ = cursor;
}

} // verus!
