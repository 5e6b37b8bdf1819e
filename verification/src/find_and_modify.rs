//! The find-and-modify option bag. The setters record their values; the
//! operation itself is not exposed by the backing driver's synchronous
//! surface, so the collection entry point reports it unsupported.

use vstd::prelude::*;

use mongodb::bson::raw::RawDocumentBuf;

use crate::bson::bson_t;
use crate::raw_doc::{doc_elems, raw_doc_clone, ElemView};

verus! {

/// The find-and-modify flag constants of the legacy interface.
#[allow(non_camel_case_types)]
#[derive(Clone, Copy, PartialEq, Eq, Structural)]
pub enum mongoc_find_and_modify_flags_t {
    MONGOC_FIND_AND_MODIFY_NONE,
    MONGOC_FIND_AND_MODIFY_REMOVE,
    MONGOC_FIND_AND_MODIFY_UPSERT,
    MONGOC_FIND_AND_MODIFY_RETURN_NEW,
}

pub open spec fn spec_find_and_modify_flag_value(f: mongoc_find_and_modify_flags_t) -> u32 {
    match f {
        mongoc_find_and_modify_flags_t::MONGOC_FIND_AND_MODIFY_NONE => 0,
        mongoc_find_and_modify_flags_t::MONGOC_FIND_AND_MODIFY_REMOVE => 1,
        mongoc_find_and_modify_flags_t::MONGOC_FIND_AND_MODIFY_UPSERT => 2,
        mongoc_find_and_modify_flags_t::MONGOC_FIND_AND_MODIFY_RETURN_NEW => 4,
    }
}

/// The bit value each flag has at the C ABI.
pub fn find_and_modify_flag_value(f: mongoc_find_and_modify_flags_t) -> (v: u32)
    ensures
        v == spec_find_and_modify_flag_value(f),
{
    match f {
        mongoc_find_and_modify_flags_t::MONGOC_FIND_AND_MODIFY_NONE => 0,
        mongoc_find_and_modify_flags_t::MONGOC_FIND_AND_MODIFY_REMOVE => 1,
        mongoc_find_and_modify_flags_t::MONGOC_FIND_AND_MODIFY_UPSERT => 2,
        mongoc_find_and_modify_flags_t::MONGOC_FIND_AND_MODIFY_RETURN_NEW => 4,
    }
}

/// The option bag; every field starts absent.
#[allow(non_camel_case_types)]
pub struct mongoc_find_and_modify_opts_t {
    pub bypass_document_validation: Option<bool>,
    pub fields: Option<RawDocumentBuf>,
    pub flags: Option<mongoc_find_and_modify_flags_t>,
    pub sort: Option<RawDocumentBuf>,
    pub update: Option<RawDocumentBuf>,
    pub extra: Option<RawDocumentBuf>,
}

/// A fresh bag with every field absent.
pub fn mongoc_find_and_modify_opts_new() -> (o: mongoc_find_and_modify_opts_t)
    ensures
        o.bypass_document_validation is None,
        o.fields is None,
        o.flags is None,
        o.sort is None,
        o.update is None,
        o.extra is None,
{
    mongoc_find_and_modify_opts_t {
        bypass_document_validation: None,
        fields: None,
        flags: None,
        sort: None,
        update: None,
        extra: None,
    }
}

/// Records the bypass flag.
pub fn mongoc_find_and_modify_opts_set_bypass_document_validation(
    opts: &mut mongoc_find_and_modify_opts_t,
    bypass: bool,
) -> (ok: bool)
    ensures
        ok,
        final(opts).bypass_document_validation == Some(bypass),
        final(opts).fields == old(opts).fields,
        final(opts).flags == old(opts).flags,
        final(opts).sort == old(opts).sort,
        final(opts).update == old(opts).update,
        final(opts).extra == old(opts).extra,
{
    opts.bypass_document_validation = Some(bypass);
    true
}

/// Records the projection document.
pub fn mongoc_find_and_modify_opts_set_fields(
    opts: &mut mongoc_find_and_modify_opts_t,
    fields: &bson_t,
) -> (ok: bool)
    ensures
        ok,
        final(opts).fields matches Some(d) && doc_elems(d) == fields@.elems,
        final(opts).bypass_document_validation == old(opts).bypass_document_validation,
        final(opts).flags == old(opts).flags,
        final(opts).sort == old(opts).sort,
        final(opts).update == old(opts).update,
        final(opts).extra == old(opts).extra,
{
    opts.fields = Some(raw_doc_clone(&fields.doc));
    true
}

/// Records the flags.
pub fn mongoc_find_and_modify_opts_set_flags(
    opts: &mut mongoc_find_and_modify_opts_t,
    flags: mongoc_find_and_modify_flags_t,
) -> (ok: bool)
    ensures
        ok,
        final(opts).flags == Some(flags),
        final(opts).bypass_document_validation == old(opts).bypass_document_validation,
        final(opts).fields == old(opts).fields,
        final(opts).sort == old(opts).sort,
        final(opts).update == old(opts).update,
        final(opts).extra == old(opts).extra,
{
    opts.flags = Some(flags);
    true
}

/// Records the sort document.
pub fn mongoc_find_and_modify_opts_set_sort(
    opts: &mut mongoc_find_and_modify_opts_t,
    sort: &bson_t,
) -> (ok: bool)
    ensures
        ok,
        final(opts).sort matches Some(d) && doc_elems(d) == sort@.elems,
        final(opts).bypass_document_validation == old(opts).bypass_document_validation,
        final(opts).fields == old(opts).fields,
        final(opts).flags == old(opts).flags,
        final(opts).update == old(opts).update,
        final(opts).extra == old(opts).extra,
{
    opts.sort = Some(raw_doc_clone(&sort.doc));
    true
}

/// Records the update document.
pub fn mongoc_find_and_modify_opts_set_update(
    opts: &mut mongoc_find_and_modify_opts_t,
    update: &bson_t,
) -> (ok: bool)
    ensures
        ok,
        final(opts).update matches Some(d) && doc_elems(d) == update@.elems,
        final(opts).bypass_document_validation == old(opts).bypass_document_validation,
        final(opts).fields == old(opts).fields,
        final(opts).flags == old(opts).flags,
        final(opts).sort == old(opts).sort,
        final(opts).extra == old(opts).extra,
{
    opts.update = Some(raw_doc_clone(&update.doc));
    true
}

/// Records extra option entries to merge into the eventual command.
pub fn mongoc_find_and_modify_opts_append(
    opts: &mut mongoc_find_and_modify_opts_t,
    extra: &bson_t,
) -> (ok: bool)
    ensures
        ok,
        final(opts).extra matches Some(d) && doc_elems(d) == extra@.elems,
        final(opts).bypass_document_validation == old(opts).bypass_document_validation,
        final(opts).fields == old(opts).fields,
        final(opts).flags == old(opts).flags,
        final(opts).sort == old(opts).sort,
        final(opts).update == old(opts).update,
{
    opts.extra = Some(raw_doc_clone(&extra.doc));
    true
}

/// Releases the bag.
pub fn mongoc_find_and_modify_opts_destroy(opts: mongoc_find_and_modify_opts_t) {
    let _ = opts;
}

} // verus!
