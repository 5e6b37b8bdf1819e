//! The collection handle and the compute halves of its operations: option
//! documents are deserialized into the backing driver's typed options, the
//! rename command is assembled and merged, and command documents are built,
//! all before the network work that runs them outside the library.

use vstd::prelude::*;
use vstd::string::StringExecFns;

use mongodb::bson::raw::RawDocumentBuf;
use mongodb::options::{
    AggregateOptions, CountOptions, EstimatedDocumentCountOptions, FindOptions, InsertOneOptions,
    ListIndexesOptions,
};
use mongodb::sync::Collection;

use crate::bson::bson_t;
use crate::client::{collection_db, collection_name, collection_namespace_string,
    MONGOC_ERROR_CODE_UNSUPPORTED};
use crate::command::{build_command_with_opts, merge_doc_with_opts, merged_command, opt_elems,
    opt_iterates};
use crate::error::{bson_error_t, bson_set_error, MONGOC_ERROR_DOMAIN_BSON,
    MONGOC_ERROR_DOMAIN_UNSUPPORTED};
use crate::find_and_modify::mongoc_find_and_modify_opts_t;
use crate::raw_doc::{doc_bytes, doc_elems, raw_append_bool, raw_append_str, raw_doc_new,
    ElemView};
use crate::read_concern::mongoc_read_concern_t;
use crate::read_pref::mongoc_read_prefs_t;
use crate::write_concern::mongoc_write_concern_t;

verus! {

#[verifier::external_type_specification]
#[verifier::external_body]
pub struct ExInsertOneOptions(InsertOneOptions);

#[verifier::external_type_specification]
#[verifier::external_body]
pub struct ExFindOptions(FindOptions);

#[verifier::external_type_specification]
#[verifier::external_body]
pub struct ExAggregateOptions(AggregateOptions);

#[verifier::external_type_specification]
#[verifier::external_body]
pub struct ExCountOptions(CountOptions);

#[verifier::external_type_specification]
#[verifier::external_body]
pub struct ExEstimatedDocumentCountOptions(EstimatedDocumentCountOptions);

#[verifier::external_type_specification]
#[verifier::external_body]
pub struct ExListIndexesOptions(ListIndexesOptions);

/// Whether a document's bytes deserialize into the driver's insert
/// options: a function of the bytes alone.
pub uninterp spec fn insert_opts_parse(d: RawDocumentBuf) -> bool;

/// Relies on `bson::from_slice` deserializing insert options from document
/// bytes; deserialization is deterministic in the bytes.
#[verifier::external_body]
pub fn parse_insert_one_options(d: &RawDocumentBuf) -> (r: Option<InsertOneOptions>)
    ensures
        (r is Some) == insert_opts_parse(*d),
        doc_bytes(*d) == seq![5u8, 0u8, 0u8, 0u8, 0u8] ==> r is Some,
{
    mongodb::bson::from_slice(d.as_bytes()).ok()
}

/// Whether a document's bytes deserialize into the driver's find
/// options: a function of the bytes alone. The empty document does.
pub uninterp spec fn find_opts_parse(d: RawDocumentBuf) -> bool;

/// Relies on `bson::from_slice` deserializing find options from document
/// bytes; deserialization is deterministic in the bytes, and the empty
/// document yields the all-default options.
#[verifier::external_body]
pub fn parse_find_options(d: &RawDocumentBuf) -> (r: Option<FindOptions>)
    ensures
        (r is Some) == find_opts_parse(*d),
        doc_bytes(*d) == seq![5u8, 0u8, 0u8, 0u8, 0u8] ==> r is Some,
{
    mongodb::bson::from_slice(d.as_bytes()).ok()
}

/// Whether a document's bytes deserialize into the driver's aggregate
/// options: a function of the bytes alone. The empty document does.
pub uninterp spec fn aggregate_opts_parse(d: RawDocumentBuf) -> bool;

/// Relies on `bson::from_slice` deserializing aggregate options from document
/// bytes; deserialization is deterministic in the bytes, and the empty
/// document yields the all-default options.
#[verifier::external_body]
pub fn parse_aggregate_options(d: &RawDocumentBuf) -> (r: Option<AggregateOptions>)
    ensures
        (r is Some) == aggregate_opts_parse(*d),
        doc_bytes(*d) == seq![5u8, 0u8, 0u8, 0u8, 0u8] ==> r is Some,
{
    mongodb::bson::from_slice(d.as_bytes()).ok()
}

/// Whether a document's bytes deserialize into the driver's count
/// options: a function of the bytes alone. The empty document does.
pub uninterp spec fn count_opts_parse(d: RawDocumentBuf) -> bool;

/// Relies on `bson::from_slice` deserializing count options from document
/// bytes; deserialization is deterministic in the bytes, and the empty
/// document yields the all-default options.
#[verifier::external_body]
pub fn parse_count_options(d: &RawDocumentBuf) -> (r: Option<CountOptions>)
    ensures
        (r is Some) == count_opts_parse(*d),
        doc_bytes(*d) == seq![5u8, 0u8, 0u8, 0u8, 0u8] ==> r is Some,
{
    mongodb::bson::from_slice(d.as_bytes()).ok()
}

/// Whether a document's bytes deserialize into the driver's estimated-count
/// options: a function of the bytes alone. The empty document does.
pub uninterp spec fn estimated_count_opts_parse(d: RawDocumentBuf) -> bool;

/// Relies on `bson::from_slice` deserializing estimated-count options from document
/// bytes; deserialization is deterministic in the bytes, and the empty
/// document yields the all-default options.
#[verifier::external_body]
pub fn parse_estimated_count_options(d: &RawDocumentBuf) -> (r: Option<EstimatedDocumentCountOptions>)
    ensures
        (r is Some) == estimated_count_opts_parse(*d),
        doc_bytes(*d) == seq![5u8, 0u8, 0u8, 0u8, 0u8] ==> r is Some,
{
    mongodb::bson::from_slice(d.as_bytes()).ok()
}

/// Whether a document's bytes deserialize into the driver's list-indexes
/// options: a function of the bytes alone. The empty document does.
pub uninterp spec fn list_indexes_opts_parse(d: RawDocumentBuf) -> bool;

/// Relies on `bson::from_slice` deserializing list-indexes options from document
/// bytes; deserialization is deterministic in the bytes, and the empty
/// document yields the all-default options.
#[verifier::external_body]
pub fn parse_list_indexes_options(d: &RawDocumentBuf) -> (r: Option<ListIndexesOptions>)
    ensures
        (r is Some) == list_indexes_opts_parse(*d),
        doc_bytes(*d) == seq![5u8, 0u8, 0u8, 0u8, 0u8] ==> r is Some,
{
    mongodb::bson::from_slice(d.as_bytes()).ok()
}

/// A namespace-scoped handle holding the backing driver's collection, the
/// database handle the shim runs namespace commands through, and a handle
/// to the client, through which admin-side commands (the rename) reach the
/// admin database.
#[allow(non_camel_case_types)]
pub struct mongoc_collection_t {
    pub client: mongodb::sync::Client,
    pub database: mongodb::sync::Database,
    pub collection: Collection<RawDocumentBuf>,
}

impl mongoc_collection_t {
    /// The database handle is scoped to the same database as the collection.
    pub open spec fn wf(&self) -> bool {
        crate::client::database_name(self.database) == collection_db(self.collection)
    }
}

/// The rename command the shim runs against the admin side: the current
/// namespace, the target namespace, and the drop flag, in that order.
pub open spec fn rename_command_elems(
    db: Seq<char>,
    coll: Seq<char>,
    new_db: Seq<char>,
    new_name: Seq<char>,
    drop_target: bool,
) -> Seq<(Seq<char>, ElemView)> {
    seq![
        ("renameCollection"@, ElemView::Utf8(db + "."@ + coll)),
        ("to"@, ElemView::Utf8(new_db + "."@ + new_name)),
        ("dropTarget"@, ElemView::Bool(drop_target)),
    ]
}

/// The document a rename runs: the rename command for this collection's
/// namespace with any extra options merged over it, option keys winning.
pub fn mongoc_collection_build_rename_command(
    collection: &mongoc_collection_t,
    new_db: &str,
    new_name: &str,
    drop_target_before_rename: bool,
    opts: Option<&bson_t>,
    error: &mut bson_error_t,
) -> (r: Option<RawDocumentBuf>)
    ensures
        (r is Some) == (opt_iterates(opts) && vstd::utf8::encode_utf8(
            collection_db(collection.collection) + "."@ + collection_name(collection.collection),
        ).len() < 0x7FFF_FFFF && vstd::utf8::encode_utf8(new_db@ + "."@ + new_name@).len()
            < 0x7FFF_FFFF),
        r matches Some(d) ==> doc_elems(d) == merged_command(
            rename_command_elems(
                collection_db(collection.collection),
                collection_name(collection.collection),
                new_db@,
                new_name@,
                drop_target_before_rename,
            ),
            opt_elems(opts),
        ),
        r is None ==> final(error).wf() && (final(error).domain == MONGOC_ERROR_DOMAIN_BSON
            || final(error).domain == crate::error::MONGOC_ERROR_DOMAIN_ARGUMENT),
{
    proof {
        reveal_strlit("renameCollection");
        reveal_strlit("to");
        reveal_strlit("dropTarget");
        assert(!"renameCollection"@.contains('\u{0}'));
        assert(!"to"@.contains('\u{0}'));
        assert(!"dropTarget"@.contains('\u{0}'));
    }
    let ns = collection_namespace_string(&collection.collection);
    let mut target = new_db.to_owned();
    target.append(".");
    target.append(new_name);
    // Both namespace strings are written behind 32-bit length prefixes.
    if ns.as_str().as_bytes().len() >= 0x7FFF_FFFF || target.as_str().as_bytes().len()
        >= 0x7FFF_FFFF {
        bson_set_error(
            error,
            crate::error::MONGOC_ERROR_DOMAIN_ARGUMENT,
            crate::pipeline::MONGOC_ERROR_CODE_PIPELINE,
            "namespace is too long to encode".as_bytes(),
        );
        return None;
    }
    let mut cmd = raw_doc_new();
    raw_append_str(&mut cmd, "renameCollection", ns.as_str());
    raw_append_str(&mut cmd, "to", target.as_str());
    raw_append_bool(&mut cmd, "dropTarget", drop_target_before_rename);
    proof {
        assert(doc_elems(cmd) =~= rename_command_elems(
            collection_db(collection.collection),
            collection_name(collection.collection),
            new_db@,
            new_name@,
            drop_target_before_rename,
        ));
    }
    merge_doc_with_opts(&cmd, opts, error)
}

/// The document a read or write command with options runs: the command's
/// elements with the options merged over them, option keys winning.
pub fn mongoc_collection_build_command_with_opts(
    collection: &mongoc_collection_t,
    command: &bson_t,
    read_pref: Option<&mongoc_read_prefs_t>,
    opts: Option<&bson_t>,
    error: &mut bson_error_t,
) -> (r: Option<RawDocumentBuf>)
    ensures
        (r is Some) == (command@.iterates && opt_iterates(opts)),
        r matches Some(d) ==> doc_elems(d) == merged_command(command@.elems, opt_elems(opts)),
        r is None ==> final(error).domain == MONGOC_ERROR_DOMAIN_BSON && final(error).wf(),
{
    let _ = (collection, read_pref);
    build_command_with_opts(command, opts, error)
}

/// The verified half of an insert: the document to hand the backing driver,
/// unchanged, and the typed options its option document deserializes to. A
/// missing options document means driver defaults; one whose bytes do not
/// deserialize fails under the BSON domain, and nothing is inserted.
pub fn mongoc_collection_prepare_insert_one(
    document: &bson_t,
    opts: Option<&bson_t>,
    error: &mut bson_error_t,
) -> (r: Option<(RawDocumentBuf, Option<InsertOneOptions>)>)
    ensures
        (r is Some) == (opts matches Some(o) ==> insert_opts_parse(o.doc)),
        r matches Some(p) ==> doc_elems(p.0) == document@.elems,
        r is Some && opts is None ==> r.unwrap().1 is None,
        r is None ==> final(error).domain == MONGOC_ERROR_DOMAIN_BSON && final(error).wf(),
{
    let typed = match opts {
        Some(o) => match parse_insert_one_options(&o.doc) {
            Some(t) => Some(t),
            None => {
                bson_set_error(
                    error,
                    MONGOC_ERROR_DOMAIN_BSON,
                    crate::command::MONGOC_ERROR_CODE_MALFORMED,
                    "insert options do not deserialize".as_bytes(),
                );
                return None;
            },
        },
        None => None,
    };
    Some((crate::raw_doc::raw_doc_clone(&document.doc), typed))
}

/// Unsupported: a read concern cannot be set after creation.
pub fn mongoc_collection_set_read_concern(
    collection: &mongoc_collection_t,
    rc: &mongoc_read_concern_t,
) -> (ok: bool)
    ensures
        !ok,
{
    let _ = (collection, rc);
    false
}

/// Unsupported: the backing driver does not expose the live value.
pub fn mongoc_collection_get_read_concern(collection: &mongoc_collection_t) -> (r: Option<
    &mongoc_read_concern_t,
>)
    ensures
        r is None,
{
    let _ = collection;
    None
}

/// Unsupported: a write concern cannot be set after creation.
pub fn mongoc_collection_set_write_concern(
    collection: &mongoc_collection_t,
    wc: &mongoc_write_concern_t,
) -> (ok: bool)
    ensures
        !ok,
{
    let _ = (collection, wc);
    false
}

/// Unsupported: the backing driver does not expose the live value.
pub fn mongoc_collection_get_write_concern(collection: &mongoc_collection_t) -> (r: Option<
    &mongoc_write_concern_t,
>)
    ensures
        r is None,
{
    let _ = collection;
    None
}

/// Unsupported: read preferences cannot be set after creation.
pub fn mongoc_collection_set_read_prefs(
    collection: &mongoc_collection_t,
    rp: &mongoc_read_prefs_t,
) -> (ok: bool)
    ensures
        !ok,
{
    let _ = (collection, rp);
    false
}

/// Unsupported: the backing driver does not expose the live value.
pub fn mongoc_collection_get_read_prefs(collection: &mongoc_collection_t) -> (r: Option<
    &mongoc_read_prefs_t,
>)
    ensures
        r is None,
{
    let _ = collection;
    None
}

/// Unsupported: change streams are not exposed by the backing driver; the
/// error record says so.
pub fn mongoc_collection_watch(
    collection: &mongoc_collection_t,
    pipeline: &bson_t,
    opts: Option<&bson_t>,
    error: &mut bson_error_t,
) -> (r: Option<crate::cursor::mongoc_cursor_t>)
    ensures
        r is None,
        final(error).domain == MONGOC_ERROR_DOMAIN_UNSUPPORTED,
        final(error).wf(),
{
    let _ = (collection, pipeline, opts);
    bson_set_error(
        error,
        MONGOC_ERROR_DOMAIN_UNSUPPORTED,
        MONGOC_ERROR_CODE_UNSUPPORTED,
        "change streams are not exposed by the backing driver".as_bytes(),
    );
    None
}

/// Unsupported: find-and-modify is not exposed by the backing driver's
/// synchronous surface; the error record says so and the reply is untouched.
pub fn mongoc_collection_find_and_modify_with_opts(
    collection: &mongoc_collection_t,
    query: &bson_t,
    opts: Option<&mongoc_find_and_modify_opts_t>,
    reply: &mut bson_t,
    error: &mut bson_error_t,
) -> (ok: bool)
    ensures
        !ok,
        *final(reply) == *old(reply),
        final(error).domain == MONGOC_ERROR_DOMAIN_UNSUPPORTED,
        final(error).wf(),
{
    let _ = (collection, query, opts);
    bson_set_error(
        error,
        MONGOC_ERROR_DOMAIN_UNSUPPORTED,
        MONGOC_ERROR_CODE_UNSUPPORTED,
        "find-and-modify is not exposed by the backing driver".as_bytes(),
    );
    false
}

/// Releases the handle.
pub fn mongoc_collection_destroy(collection: mongoc_collection_t) {
    let _ = collection;
}

} // verus!
