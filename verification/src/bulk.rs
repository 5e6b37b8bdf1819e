//! The bulk-operation accumulator: a collection handle plus one pending
//! compound write. The allowed transitions are narrow: any first add is
//! accepted from the fresh state, a second insert folds into a many-insert,
//! and every other add after the first is refused with the state unchanged.

use vstd::prelude::*;

use mongodb::bson::raw::RawDocumentBuf;
use mongodb::sync::Collection;

use crate::bson::bson_t;
use crate::error::{bson_error_t, bson_set_error, MONGOC_ERROR_DOMAIN_ARGUMENT};
use crate::raw_doc::{
    doc_elems, raw_append_i32, raw_append_i64, raw_doc_clone, raw_doc_new, ElemView,
};
use crate::write_concern::mongoc_write_concern_t;

verus! {

/// The code placed in the error record when an add is refused by the state
/// machine.
pub const MONGOC_ERROR_CODE_BULK_STATE: u32 = 5;

/// The pending compound write.
pub enum BulkState {
    Fresh,
    InsertOne { document: RawDocumentBuf },
    InsertMany { documents: Vec<RawDocumentBuf> },
    UpdateOne { filter: RawDocumentBuf, update: RawDocumentBuf },
    UpdateMany { filter: RawDocumentBuf, update: RawDocumentBuf },
    ReplaceOne { filter: RawDocumentBuf, replacement: RawDocumentBuf },
    DeleteOne { filter: RawDocumentBuf },
    DeleteMany { filter: RawDocumentBuf },
}

/// The pending write as the contracts speak of it: each held document by its
/// element sequence.
pub enum BulkView {
    Fresh,
    InsertOne { document: Seq<(Seq<char>, ElemView)> },
    InsertMany { documents: Seq<Seq<(Seq<char>, ElemView)>> },
    UpdateOne { filter: Seq<(Seq<char>, ElemView)>, update: Seq<(Seq<char>, ElemView)> },
    UpdateMany { filter: Seq<(Seq<char>, ElemView)>, update: Seq<(Seq<char>, ElemView)> },
    ReplaceOne { filter: Seq<(Seq<char>, ElemView)>, replacement: Seq<(Seq<char>, ElemView)> },
    DeleteOne { filter: Seq<(Seq<char>, ElemView)> },
    DeleteMany { filter: Seq<(Seq<char>, ElemView)> },
}

impl View for BulkState {
    type V = BulkView;

    open spec fn view(&self) -> BulkView {
        match self {
            BulkState::Fresh => BulkView::Fresh,
            BulkState::InsertOne { document } => BulkView::InsertOne {
                document: doc_elems(*document),
            },
            BulkState::InsertMany { documents } => BulkView::InsertMany {
                documents: Seq::new(documents@.len(), |i: int| doc_elems(documents@[i])),
            },
            BulkState::UpdateOne { filter, update } => BulkView::UpdateOne {
                filter: doc_elems(*filter),
                update: doc_elems(*update),
            },
            BulkState::UpdateMany { filter, update } => BulkView::UpdateMany {
                filter: doc_elems(*filter),
                update: doc_elems(*update),
            },
            BulkState::ReplaceOne { filter, replacement } => BulkView::ReplaceOne {
                filter: doc_elems(*filter),
                replacement: doc_elems(*replacement),
            },
            BulkState::DeleteOne { filter } => BulkView::DeleteOne { filter: doc_elems(*filter) },
            BulkState::DeleteMany { filter } => BulkView::DeleteMany {
                filter: doc_elems(*filter),
            },
        }
    }
}

/// The accumulator: one pending write against one collection.
#[allow(non_camel_case_types)]
pub struct mongoc_bulk_operation_t {
    pub collection: Collection<RawDocumentBuf>,
    pub state: BulkState,
}

impl mongoc_bulk_operation_t {
    /// A fresh accumulator for the collection.
    pub fn new(collection: Collection<RawDocumentBuf>) -> (b: mongoc_bulk_operation_t)
        ensures
            b.state@ is Fresh,
    {
        mongoc_bulk_operation_t { collection, state: BulkState::Fresh }
    }
}

/// What an insert does to the pending state: a first insert from fresh, a
/// second folding into a many-insert of the two documents in order; any
/// other prior state refuses the add.
pub open spec fn insert_transition(pre: BulkView, doc: Seq<(Seq<char>, ElemView)>) -> Option<
    BulkView,
> {
    match pre {
        BulkView::Fresh => Some(BulkView::InsertOne { document: doc }),
        BulkView::InsertOne { document } => Some(
            BulkView::InsertMany { documents: seq![document, doc] },
        ),
        _ => None,
    }
}

/// Adds an insert of the document. A refused add reports false, fills the
/// error record, and leaves the pending state unchanged.
pub fn mongoc_bulk_operation_insert_with_opts(
    bulk: &mut mongoc_bulk_operation_t,
    document: &bson_t,
    opts: Option<&bson_t>,
    error: &mut bson_error_t,
) -> (ok: bool)
    ensures
        ok == (insert_transition(old(bulk).state@, document@.elems) is Some),
        ok ==> Some(final(bulk).state@) == insert_transition(old(bulk).state@, document@.elems),
        !ok ==> final(bulk).state@ == old(bulk).state@ && final(error).domain
            == MONGOC_ERROR_DOMAIN_ARGUMENT && final(error).wf(),
{
    let _ = opts;
    let mut prior = BulkState::Fresh;
    std::mem::swap(&mut prior, &mut bulk.state);
    match prior {
        BulkState::Fresh => {
            bulk.state = BulkState::InsertOne { document: raw_doc_clone(&document.doc) };
            true
        },
        BulkState::InsertOne { document: existing } => {
            let ghost e0 = doc_elems(existing);
            let mut documents: Vec<RawDocumentBuf> = Vec::new();
            documents.push(existing);
            documents.push(raw_doc_clone(&document.doc));
            proof {
                assert(documents@.len() == 2);
                assert(doc_elems(documents@[0]) == e0);
                assert(doc_elems(documents@[1]) == document@.elems);
            }
            bulk.state = BulkState::InsertMany { documents };
            proof {
                assert(bulk.state@->InsertMany_documents =~= seq![e0, document@.elems]);
            }
            true
        },
        other => {
            bulk.state = other;
            bson_set_error(
                error,
                MONGOC_ERROR_DOMAIN_ARGUMENT,
                MONGOC_ERROR_CODE_BULK_STATE,
                "cannot add an insert to a pending non-insert write".as_bytes(),
            );
            false
        },
    }
}

/// Adds a delete of everything matching the filter; allowed only from the
/// fresh state.
pub fn mongoc_bulk_operation_remove_many_with_opts(
    bulk: &mut mongoc_bulk_operation_t,
    filter: &bson_t,
    opts: Option<&bson_t>,
    error: &mut bson_error_t,
) -> (ok: bool)
    ensures
        ok == (old(bulk).state@ is Fresh),
        ok ==> final(bulk).state@ == (BulkView::DeleteMany { filter: filter@.elems }),
        !ok ==> final(bulk).state@ == old(bulk).state@ && final(error).domain
            == MONGOC_ERROR_DOMAIN_ARGUMENT && final(error).wf(),
{
    let _ = opts;
    if matches!(bulk.state, BulkState::Fresh) {
        bulk.state = BulkState::DeleteMany { filter: raw_doc_clone(&filter.doc) };
        true
    } else {
        bson_set_error(
            error,
            MONGOC_ERROR_DOMAIN_ARGUMENT,
            MONGOC_ERROR_CODE_BULK_STATE,
            "cannot add a delete to a pending write".as_bytes(),
        );
        false
    }
}

/// Adds a delete of one document matching the filter; allowed only from the
/// fresh state.
pub fn mongoc_bulk_operation_remove_one_with_opts(
    bulk: &mut mongoc_bulk_operation_t,
    filter: &bson_t,
    opts: Option<&bson_t>,
    error: &mut bson_error_t,
) -> (ok: bool)
    ensures
        ok == (old(bulk).state@ is Fresh),
        ok ==> final(bulk).state@ == (BulkView::DeleteOne { filter: filter@.elems }),
        !ok ==> final(bulk).state@ == old(bulk).state@ && final(error).domain
            == MONGOC_ERROR_DOMAIN_ARGUMENT && final(error).wf(),
{
    let _ = opts;
    if matches!(bulk.state, BulkState::Fresh) {
        bulk.state = BulkState::DeleteOne { filter: raw_doc_clone(&filter.doc) };
        true
    } else {
        bson_set_error(
            error,
            MONGOC_ERROR_DOMAIN_ARGUMENT,
            MONGOC_ERROR_CODE_BULK_STATE,
            "cannot add a delete to a pending write".as_bytes(),
        );
        false
    }
}

/// Adds a replace of one document matching the filter; allowed only from
/// the fresh state.
pub fn mongoc_bulk_operation_replace_one_with_opts(
    bulk: &mut mongoc_bulk_operation_t,
    filter: &bson_t,
    replacement: &bson_t,
    opts: Option<&bson_t>,
    error: &mut bson_error_t,
) -> (ok: bool)
    ensures
        ok == (old(bulk).state@ is Fresh),
        ok ==> final(bulk).state@ == (BulkView::ReplaceOne {
            filter: filter@.elems,
            replacement: replacement@.elems,
        }),
        !ok ==> final(bulk).state@ == old(bulk).state@ && final(error).domain
            == MONGOC_ERROR_DOMAIN_ARGUMENT && final(error).wf(),
{
    let _ = opts;
    if matches!(bulk.state, BulkState::Fresh) {
        bulk.state = BulkState::ReplaceOne {
            filter: raw_doc_clone(&filter.doc),
            replacement: raw_doc_clone(&replacement.doc),
        };
        true
    } else {
        bson_set_error(
            error,
            MONGOC_ERROR_DOMAIN_ARGUMENT,
            MONGOC_ERROR_CODE_BULK_STATE,
            "cannot add a replace to a pending write".as_bytes(),
        );
        false
    }
}

/// Adds an update of everything matching the filter; allowed only from the
/// fresh state.
pub fn mongoc_bulk_operation_update_many_with_opts(
    bulk: &mut mongoc_bulk_operation_t,
    filter: &bson_t,
    update: &bson_t,
    opts: Option<&bson_t>,
    error: &mut bson_error_t,
) -> (ok: bool)
    ensures
        ok == (old(bulk).state@ is Fresh),
        ok ==> final(bulk).state@ == (BulkView::UpdateMany {
            filter: filter@.elems,
            update: update@.elems,
        }),
        !ok ==> final(bulk).state@ == old(bulk).state@ && final(error).domain
            == MONGOC_ERROR_DOMAIN_ARGUMENT && final(error).wf(),
{
    let _ = opts;
    if matches!(bulk.state, BulkState::Fresh) {
        bulk.state = BulkState::UpdateMany {
            filter: raw_doc_clone(&filter.doc),
            update: raw_doc_clone(&update.doc),
        };
        true
    } else {
        bson_set_error(
            error,
            MONGOC_ERROR_DOMAIN_ARGUMENT,
            MONGOC_ERROR_CODE_BULK_STATE,
            "cannot add an update to a pending write".as_bytes(),
        );
        false
    }
}

/// Adds an update of one document matching the filter; allowed only from
/// the fresh state.
pub fn mongoc_bulk_operation_update_one_with_opts(
    bulk: &mut mongoc_bulk_operation_t,
    filter: &bson_t,
    update: &bson_t,
    opts: Option<&bson_t>,
    error: &mut bson_error_t,
) -> (ok: bool)
    ensures
        ok == (old(bulk).state@ is Fresh),
        ok ==> final(bulk).state@ == (BulkView::UpdateOne {
            filter: filter@.elems,
            update: update@.elems,
        }),
        !ok ==> final(bulk).state@ == old(bulk).state@ && final(error).domain
            == MONGOC_ERROR_DOMAIN_ARGUMENT && final(error).wf(),
{
    let _ = opts;
    if matches!(bulk.state, BulkState::Fresh) {
        bulk.state = BulkState::UpdateOne {
            filter: raw_doc_clone(&filter.doc),
            update: raw_doc_clone(&update.doc),
        };
        true
    } else {
        bson_set_error(
            error,
            MONGOC_ERROR_DOMAIN_ARGUMENT,
            MONGOC_ERROR_CODE_BULK_STATE,
            "cannot add an update to a pending write".as_bytes(),
        );
        false
    }
}

/// The one driver call a pending write maps to: the same shapes the state
/// machine records, handed out for execution.
pub enum BulkPlan {
    InsertOne { document: RawDocumentBuf },
    InsertMany { documents: Vec<RawDocumentBuf> },
    UpdateOne { filter: RawDocumentBuf, update: RawDocumentBuf },
    UpdateMany { filter: RawDocumentBuf, update: RawDocumentBuf },
    ReplaceOne { filter: RawDocumentBuf, replacement: RawDocumentBuf },
    DeleteOne { filter: RawDocumentBuf },
    DeleteMany { filter: RawDocumentBuf },
}

/// The pending write a plan carries out.
pub open spec fn plan_view(p: BulkPlan) -> BulkView {
    match p {
        BulkPlan::InsertOne { document } => BulkView::InsertOne {
            document: doc_elems(document),
        },
        BulkPlan::InsertMany { documents } => BulkView::InsertMany {
            documents: Seq::new(documents@.len(), |i: int| doc_elems(documents@[i])),
        },
        BulkPlan::UpdateOne { filter, update } => BulkView::UpdateOne {
            filter: doc_elems(filter),
            update: doc_elems(update),
        },
        BulkPlan::UpdateMany { filter, update } => BulkView::UpdateMany {
            filter: doc_elems(filter),
            update: doc_elems(update),
        },
        BulkPlan::ReplaceOne { filter, replacement } => BulkView::ReplaceOne {
            filter: doc_elems(filter),
            replacement: doc_elems(replacement),
        },
        BulkPlan::DeleteOne { filter } => BulkView::DeleteOne { filter: doc_elems(filter) },
        BulkPlan::DeleteMany { filter } => BulkView::DeleteMany { filter: doc_elems(filter) },
    }
}

/// The summary document an insert execution reports.
pub open spec fn insert_reply_elems(n: i32) -> Seq<(Seq<char>, ElemView)> {
    seq![("nInserted"@, ElemView::Int32(n))]
}

/// Builds the summary document of a successful single-insert execution.
pub fn bulk_insert_reply() -> (d: RawDocumentBuf)
    ensures
        doc_elems(d) == insert_reply_elems(1),
{
    bulk_insert_many_reply(1)
}

/// Builds the summary document of a successful insert execution counting
/// the documents inserted.
pub fn bulk_insert_many_reply(n: i32) -> (d: RawDocumentBuf)
    ensures
        doc_elems(d) == insert_reply_elems(n),
{
    proof {
        reveal_strlit("nInserted");
        assert(!"nInserted"@.contains('\u{0}'));
    }
    let mut d = raw_doc_new();
    raw_append_i32(&mut d, "nInserted", n);
    proof {
        assert(doc_elems(d) =~= insert_reply_elems(n));
    }
    d
}

/// The summary document an update or replace execution reports.
pub open spec fn update_reply_elems(matched: i64, modified: i64) -> Seq<(Seq<char>, ElemView)> {
    seq![("nMatched"@, ElemView::Int64(matched)), ("nModified"@, ElemView::Int64(modified))]
}

/// Builds the summary document of a successful update or replace execution
/// from the counts the backing driver reports.
pub fn bulk_update_reply(matched: i64, modified: i64) -> (d: RawDocumentBuf)
    ensures
        doc_elems(d) == update_reply_elems(matched, modified),
{
    proof {
        reveal_strlit("nMatched");
        reveal_strlit("nModified");
        assert(!"nMatched"@.contains('\u{0}'));
        assert(!"nModified"@.contains('\u{0}'));
    }
    let mut d = raw_doc_new();
    raw_append_i64(&mut d, "nMatched", matched);
    raw_append_i64(&mut d, "nModified", modified);
    proof {
        assert(doc_elems(d) =~= update_reply_elems(matched, modified));
    }
    d
}

/// The summary document a delete execution reports.
pub open spec fn delete_reply_elems(removed: i64) -> Seq<(Seq<char>, ElemView)> {
    seq![("nRemoved"@, ElemView::Int64(removed))]
}

/// Builds the summary document of a successful delete execution from the
/// count the backing driver reports.
pub fn bulk_delete_reply(removed: i64) -> (d: RawDocumentBuf)
    ensures
        doc_elems(d) == delete_reply_elems(removed),
{
    proof {
        reveal_strlit("nRemoved");
        assert(!"nRemoved"@.contains('\u{0}'));
    }
    let mut d = raw_doc_new();
    raw_append_i64(&mut d, "nRemoved", removed);
    proof {
        assert(doc_elems(d) =~= delete_reply_elems(removed));
    }
    d
}

/// Takes the pending write out for execution. Execute consumes the pending
/// operation, so the accumulator is fresh afterwards whatever the driver
/// call's outcome; a fresh accumulator yields no plan. The plan carries
/// exactly the pending write.
pub fn bulk_execute_plan(bulk: &mut mongoc_bulk_operation_t) -> (r: Option<BulkPlan>)
    ensures
        final(bulk).state@ is Fresh,
        (r is Some) == !(old(bulk).state@ is Fresh),
        r matches Some(p) ==> plan_view(p) == old(bulk).state@,
{
    let mut prior = BulkState::Fresh;
    std::mem::swap(&mut prior, &mut bulk.state);
    match prior {
        BulkState::Fresh => None,
        BulkState::InsertOne { document } => Some(BulkPlan::InsertOne { document }),
        BulkState::InsertMany { documents } => {
            let ghost v = old(bulk).state@->InsertMany_documents;
            let r = BulkPlan::InsertMany { documents };
            proof {
                assert(plan_view(r)->InsertMany_documents =~= v);
            }
            Some(r)
        },
        BulkState::UpdateOne { filter, update } => Some(BulkPlan::UpdateOne { filter, update }),
        BulkState::UpdateMany { filter, update } => Some(
            BulkPlan::UpdateMany { filter, update },
        ),
        BulkState::ReplaceOne { filter, replacement } => Some(
            BulkPlan::ReplaceOne { filter, replacement },
        ),
        BulkState::DeleteOne { filter } => Some(BulkPlan::DeleteOne { filter }),
        BulkState::DeleteMany { filter } => Some(BulkPlan::DeleteMany { filter }),
    }
}

/// A fresh accumulator for the collection; the options document is
/// accepted and ignored, as the accumulator records no per-call options.
pub fn mongoc_collection_create_bulk_operation_with_opts(
    collection: &crate::collection::mongoc_collection_t,
    opts: Option<&bson_t>,
) -> (b: mongoc_bulk_operation_t)
    ensures
        b.state@ is Fresh,
{
    let _ = opts;
    mongoc_bulk_operation_t {
        collection: crate::client::collection_clone(&collection.collection),
        state: BulkState::Fresh,
    }
}

/// Unsupported: no write concern is recorded on the accumulator.
pub fn mongoc_bulk_operation_get_write_concern(bulk: &mongoc_bulk_operation_t) -> (r: Option<
    &mongoc_write_concern_t,
>)
    ensures
        r is None,
{
    let _ = bulk;
    None
}

/// Releases the accumulator and its pending write.
pub fn mongoc_bulk_operation_destroy(bulk: mongoc_bulk_operation_t) {
    let _ = bulk;
}

/// The bulk state machine: two inserts from fresh leave a many-insert of
/// both documents in order, and an update after an insert is refused with
/// the pending insert kept.
pub proof fn lemma_bulk_state_machine(
    d1: Seq<(Seq<char>, ElemView)>,
    d2: Seq<(Seq<char>, ElemView)>,
)
    ensures
        insert_transition(BulkView::Fresh, d1) == Some(BulkView::InsertOne { document: d1 }),
        insert_transition(BulkView::InsertOne { document: d1 }, d2) == Some(
            BulkView::InsertMany { documents: seq![d1, d2] },
        ),
        insert_transition(BulkView::InsertMany { documents: seq![d1, d2] }, d1) is None,
{
}

} // verus!
