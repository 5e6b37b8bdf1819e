//! The session handle: the backing session plus two cached documents, the
//! logical session id and the most recent cluster time. The caches exist
//! because the legacy interface hands out borrowed pointers that live as
//! long as the session, while the backing driver materializes these values
//! on demand.

use vstd::prelude::*;

use mongodb::bson::raw::RawDocumentBuf;
use mongodb::bson::Document;
use mongodb::sync::ClientSession;
use mongodb::ClusterTime;

use crate::bson::bson_t;
use crate::error::bson_error_t;
use crate::raw_doc::doc_elems;
use crate::read_concern::{mongoc_read_concern_t, ReadLevel};
use crate::read_pref::mongoc_read_prefs_t;
use crate::write_concern::{mongoc_write_concern_t, WriteAck};

verus! {

#[verifier::external_type_specification]
#[verifier::external_body]
pub struct ExClientSession(ClientSession);

#[verifier::external_type_specification]
#[verifier::external_body]
pub struct ExClusterTime(ClusterTime);

#[verifier::external_type_specification]
#[verifier::external_body]
pub struct ExDocument(Document);

/// The elements a structured document holds, in order.
pub uninterp spec fn document_elems(d: Document) -> Seq<(Seq<char>, crate::raw_doc::ElemView)>;

/// The elements of a session's logical-session-id document.
pub uninterp spec fn session_lsid_elems(s: ClientSession) -> Seq<(Seq<char>, crate::raw_doc::ElemView)>;

/// Whether the session has observed a cluster time.
pub uninterp spec fn session_has_cluster_time(s: ClientSession) -> bool;

/// The elements of the serialized form of the session's most recent cluster
/// time.
pub uninterp spec fn session_cluster_time_elems(s: ClientSession) -> Seq<(Seq<char>, crate::raw_doc::ElemView)>;

/// The elements a cluster-time value serializes to: a function of the value
/// alone.
pub uninterp spec fn cluster_time_elems(ct: ClusterTime) -> Seq<(Seq<char>, crate::raw_doc::ElemView)>;

/// Whether a document's bytes deserialize into a cluster time: a function
/// of the bytes alone.
pub uninterp spec fn cluster_time_doc_parses(d: RawDocumentBuf) -> bool;

/// Whether a structured document re-serializes to raw bytes: a function of
/// the document alone.
pub uninterp spec fn doc_serializes(d: Document) -> bool;

/// Whether a cluster-time value serializes: a function of the value alone.
pub uninterp spec fn ct_serializes(ct: ClusterTime) -> bool;

/// Whether the session's logical-session-id document re-serializes.
pub uninterp spec fn session_lsid_serializes(s: ClientSession) -> bool;

/// Whether the session's most recent cluster time serializes.
pub uninterp spec fn session_cluster_time_serializes(s: ClientSession) -> bool;

/// Relies on `ClientSession::id`: the logical session id document.
#[verifier::external_body]
pub fn session_id_doc(s: &ClientSession) -> (r: &Document)
    ensures
        document_elems(*r) == session_lsid_elems(*s),
        doc_serializes(*r) == session_lsid_serializes(*s),
{
    s.id()
}

/// Relies on `RawDocumentBuf::from_document`: re-serialization succeeds
/// exactly when the document serializes, a property of the document alone,
/// and keeps the elements.
#[verifier::external_body]
pub fn document_to_raw(d: &Document) -> (r: Option<RawDocumentBuf>)
    ensures
        (r is Some) == doc_serializes(*d),
        r matches Some(rd) ==> doc_elems(rd) == document_elems(*d),
{
    RawDocumentBuf::from_document(d).ok()
}

/// Relies on `ClientSession::cluster_time`: the most recent cluster time
/// observed, cloned out, exactly when one has been observed.
#[verifier::external_body]
pub fn session_cluster_time(s: &ClientSession) -> (r: Option<ClusterTime>)
    ensures
        (r is Some) == session_has_cluster_time(*s),
        r matches Some(ct) ==> cluster_time_elems(ct) == session_cluster_time_elems(*s)
            && ct_serializes(ct) == session_cluster_time_serializes(*s),
{
    s.cluster_time().cloned()
}

/// Relies on `bson::to_raw_document_buf` serializing a cluster time:
/// success and the serialized elements are both functions of the value
/// alone.
#[verifier::external_body]
pub fn cluster_time_to_doc(ct: &ClusterTime) -> (r: Option<RawDocumentBuf>)
    ensures
        (r is Some) == ct_serializes(*ct),
        r matches Some(d) ==> doc_elems(d) == cluster_time_elems(*ct),
{
    mongodb::bson::to_raw_document_buf(ct).ok()
}

/// Relies on `bson::from_slice` deserializing a cluster time from document
/// bytes; deserialization is deterministic in the bytes.
#[verifier::external_body]
pub fn parse_cluster_time(d: &RawDocumentBuf) -> (r: Option<ClusterTime>)
    ensures
        (r is Some) == cluster_time_doc_parses(*d),
{
    mongodb::bson::from_slice(d.as_bytes()).ok()
}

/// Relies on `ClientSession::advance_cluster_time`: the session's cluster
/// time advances to the given one when it is newer.
#[verifier::external_body]
pub fn session_advance_cluster_time(s: &mut ClientSession, ct: &ClusterTime)
{
    s.advance_cluster_time(ct);
}

/// The transaction states of the legacy interface. The backing driver does
/// not expose a session's state, so nothing here reports one.
#[allow(non_camel_case_types)]
#[derive(Clone, Copy, PartialEq, Eq, Structural)]
pub enum mongoc_transaction_state_t {
    MONGOC_TRANSACTION_NONE,
    MONGOC_TRANSACTION_STARTING,
    MONGOC_TRANSACTION_IN_PROGRESS,
    MONGOC_TRANSACTION_COMMITTED,
    MONGOC_TRANSACTION_ABORTED,
}

pub open spec fn spec_transaction_state_value(s: mongoc_transaction_state_t) -> u32 {
    match s {
        mongoc_transaction_state_t::MONGOC_TRANSACTION_NONE => 0,
        mongoc_transaction_state_t::MONGOC_TRANSACTION_STARTING => 1,
        mongoc_transaction_state_t::MONGOC_TRANSACTION_IN_PROGRESS => 2,
        mongoc_transaction_state_t::MONGOC_TRANSACTION_COMMITTED => 3,
        mongoc_transaction_state_t::MONGOC_TRANSACTION_ABORTED => 4,
    }
}

/// The value each transaction state has at the C ABI.
pub fn transaction_state_value(s: mongoc_transaction_state_t) -> (v: u32)
    ensures
        v == spec_transaction_state_value(s),
{
    match s {
        mongoc_transaction_state_t::MONGOC_TRANSACTION_NONE => 0,
        mongoc_transaction_state_t::MONGOC_TRANSACTION_STARTING => 1,
        mongoc_transaction_state_t::MONGOC_TRANSACTION_IN_PROGRESS => 2,
        mongoc_transaction_state_t::MONGOC_TRANSACTION_COMMITTED => 3,
        mongoc_transaction_state_t::MONGOC_TRANSACTION_ABORTED => 4,
    }
}

/// The session handle with its two caches.
#[allow(non_camel_case_types)]
pub struct mongoc_client_session_t {
    pub session: ClientSession,
    pub lsid: bson_t,
    pub cluster_time: bson_t,
}

impl mongoc_client_session_t {
    /// Wraps a backing session together with its re-serialized session id.
    /// The cluster-time cache starts empty and is refreshed on demand.
    pub fn from_parts(session: ClientSession, lsid: RawDocumentBuf) -> (s:
        mongoc_client_session_t)
        ensures
            s.lsid@.owned,
            s.lsid@.elems == doc_elems(lsid),
            s.cluster_time@.elems == Seq::<(Seq<char>, crate::raw_doc::ElemView)>::empty(),
    {
        mongoc_client_session_t {
            session,
            lsid: bson_t::from_raw(lsid),
            cluster_time: crate::bson::bson_new(),
        }
    }
}

/// Wraps a backing session, re-serializing its logical session id into the
/// cache, so the cache holds exactly the session's id elements. Fails
/// exactly when the id document does not re-serialize, handing the session
/// back unchanged.
pub fn mongoc_client_session_from_session(session: ClientSession) -> (r: Result<
    mongoc_client_session_t,
    ClientSession,
>)
    ensures
        (r is Ok) == session_lsid_serializes(session),
        r matches Ok(s) ==> s.lsid@.owned && s.lsid@.elems == session_lsid_elems(session)
            && s.cluster_time@.elems == Seq::<(Seq<char>, crate::raw_doc::ElemView)>::empty(),
        r matches Err(back) ==> back == session,
{
    let raw = match document_to_raw(session_id_doc(&session)) {
        Some(raw) => raw,
        None => {
            return Err(session);
        },
    };
    Ok(mongoc_client_session_t::from_parts(session, raw))
}

/// The cached logical session id; the borrow lives as long as the handle.
pub fn mongoc_client_session_get_lsid(session: &mongoc_client_session_t) -> (r: &bson_t)
    ensures
        r@ == session.lsid@,
{
    &session.lsid
}

/// Unsupported: appending the session to an options document requires a
/// session lookup the backing driver does not expose; the records are left
/// alone.
pub fn mongoc_client_session_append(
    session: &mongoc_client_session_t,
    opts: &mut bson_t,
    error: &mut bson_error_t,
) -> (ok: bool)
    ensures
        !ok,
        *final(opts) == *old(opts),
        *final(error) == *old(error),
{
    let _ = session;
    false
}

/// Unsupported: the backing driver's synchronous session does not expose
/// the operation time in this version.
pub fn mongoc_client_session_get_operation_time(session: &mongoc_client_session_t) -> (r: Option<
    (u32, u32),
>)
    ensures
        r is None,
{
    let _ = session;
    None
}

/// Unsupported: the backing driver's synchronous session does not expose
/// operation-time advancement in this version; the handle is unchanged.
pub fn mongoc_client_session_advance_operation_time(
    session: &mut mongoc_client_session_t,
    time: u32,
    increment: u32,
) -> (ok: bool)
    ensures
        !ok,
        final(session).lsid@ == old(session).lsid@,
        final(session).cluster_time@ == old(session).cluster_time@,
{
    let _ = (time, increment);
    false
}

/// Refreshes the cluster-time cache from the backing session. Succeeds
/// exactly when the session has observed a cluster time and it serializes,
/// and then the cache owns a document holding exactly that cluster time's
/// serialized elements; otherwise the cache is kept.
/// The pointer the legacy interface hands out is the cache, so it stays
/// valid as long as the session.
pub fn mongoc_client_session_refresh_cluster_time(session: &mut mongoc_client_session_t) -> (ok:
    bool)
    ensures
        final(session).session == old(session).session,
        final(session).lsid@ == old(session).lsid@,
        ok == (session_has_cluster_time(old(session).session)
            && session_cluster_time_serializes(old(session).session)),
        ok ==> final(session).cluster_time@.owned && final(session).cluster_time@.elems
            == session_cluster_time_elems(old(session).session),
        !ok ==> final(session).cluster_time@ == old(session).cluster_time@,
{
    let ct = match session_cluster_time(&session.session) {
        Some(ct) => ct,
        None => {
            return false;
        },
    };
    match cluster_time_to_doc(&ct) {
        Some(d) => {
            session.cluster_time = bson_t::from_raw(d);
            true
        },
        None => false,
    }
}

/// The cached cluster-time document.
pub fn mongoc_client_session_get_cluster_time(session: &mongoc_client_session_t) -> (r: &bson_t)
    ensures
        r@ == session.cluster_time@,
{
    &session.cluster_time
}

/// Advances the backing session's cluster time to the one held in the
/// document. Succeeds exactly when the document deserializes into a
/// cluster time; otherwise nothing changes.
pub fn mongoc_client_session_advance_cluster_time(
    session: &mut mongoc_client_session_t,
    cluster_time: &bson_t,
) -> (ok: bool)
    ensures
        ok == cluster_time_doc_parses(cluster_time.doc),
        final(session).lsid@ == old(session).lsid@,
        final(session).cluster_time@ == old(session).cluster_time@,
{
    let ct = match parse_cluster_time(&cluster_time.doc) {
        Some(ct) => ct,
        None => {
            return false;
        },
    };
    session_advance_cluster_time(&mut session.session, &ct);
    true
}

/// Unsupported: the backing driver does not expose the server a session is
/// pinned to.
pub fn mongoc_client_session_get_server_id(session: &mongoc_client_session_t) -> (r: Option<u32>)
    ensures
        r is None,
{
    let _ = session;
    None
}

/// Unsupported: the backing driver does not expose a session's transaction
/// state.
pub fn mongoc_client_session_get_transaction_state(session: &mongoc_client_session_t) -> (r:
    Option<mongoc_transaction_state_t>)
    ensures
        r is None,
{
    let _ = session;
    None
}

/// Unsupported: the backing driver does not expose a session's dirty flag.
pub fn mongoc_client_session_get_dirty(session: &mongoc_client_session_t) -> (r: Option<bool>)
    ensures
        r is None,
{
    let _ = session;
    None
}

/// Releases the handle, caches included.
pub fn mongoc_client_session_destroy(session: mongoc_client_session_t) {
    let _ = session;
}

/// Copies a read-concern bag, custom level included.
pub fn read_concern_copy(rc: &mongoc_read_concern_t) -> (r: mongoc_read_concern_t)
    ensures
        r.level == rc.level,
{
    mongoc_read_concern_t {
        level: match &rc.level {
            None => None,
            Some(ReadLevel::Local) => Some(ReadLevel::Local),
            Some(ReadLevel::Available) => Some(ReadLevel::Available),
            Some(ReadLevel::Linearizable) => Some(ReadLevel::Linearizable),
            Some(ReadLevel::Majority) => Some(ReadLevel::Majority),
            Some(ReadLevel::Snapshot) => Some(ReadLevel::Snapshot),
            Some(ReadLevel::Custom(s)) => Some(ReadLevel::Custom(s.clone())),
        },
    }
}

/// Copies a write-concern bag, tag included.
pub fn write_concern_copy(wc: &mongoc_write_concern_t) -> (r: mongoc_write_concern_t)
    ensures
        r.w == wc.w,
        r.journal == wc.journal,
        r.wtimeout_ms == wc.wtimeout_ms,
{
    mongoc_write_concern_t {
        w: match &wc.w {
            None => None,
            Some(WriteAck::Nodes(n)) => Some(WriteAck::Nodes(*n)),
            Some(WriteAck::Majority) => Some(WriteAck::Majority),
            Some(WriteAck::Tag(t)) => Some(WriteAck::Tag(t.clone())),
        },
        journal: wc.journal,
        wtimeout_ms: wc.wtimeout_ms,
    }
}

/// The transaction option bag.
#[allow(non_camel_case_types)]
pub struct mongoc_transaction_opt_t {
    pub max_commit_time_ms: Option<u64>,
    pub read_concern: Option<mongoc_read_concern_t>,
    pub write_concern: Option<mongoc_write_concern_t>,
    pub read_prefs: Option<mongoc_read_prefs_t>,
}

/// A fresh bag with every knob unset.
pub fn mongoc_transaction_opts_new() -> (o: mongoc_transaction_opt_t)
    ensures
        o.max_commit_time_ms is None,
        o.read_concern is None,
        o.write_concern is None,
        o.read_prefs is None,
{
    mongoc_transaction_opt_t {
        max_commit_time_ms: None,
        read_concern: None,
        write_concern: None,
        read_prefs: None,
    }
}

/// Records the commit-time cap in milliseconds; a negative cap is
/// meaningless and excluded.
pub fn mongoc_transaction_opts_set_max_commit_time_ms(
    opts: &mut mongoc_transaction_opt_t,
    commit_time: i64,
)
    requires
        commit_time >= 0,
    ensures
        final(opts).max_commit_time_ms == Some(commit_time as u64),
        final(opts).read_concern == old(opts).read_concern,
        final(opts).write_concern == old(opts).write_concern,
        final(opts).read_prefs == old(opts).read_prefs,
{
    opts.max_commit_time_ms = Some(commit_time as u64);
}

/// Records the read concern for transactions started with the bag.
pub fn mongoc_transaction_opts_set_read_concern(
    opts: &mut mongoc_transaction_opt_t,
    rc: &mongoc_read_concern_t,
)
    ensures
        final(opts).read_concern == Some(*rc),
        final(opts).max_commit_time_ms == old(opts).max_commit_time_ms,
        final(opts).write_concern == old(opts).write_concern,
        final(opts).read_prefs == old(opts).read_prefs,
{
    opts.read_concern = Some(read_concern_copy(rc));
}

/// Records the write concern for transactions started with the bag.
pub fn mongoc_transaction_opts_set_write_concern(
    opts: &mut mongoc_transaction_opt_t,
    wc: &mongoc_write_concern_t,
)
    ensures
        final(opts).write_concern == Some(*wc),
        final(opts).max_commit_time_ms == old(opts).max_commit_time_ms,
        final(opts).read_concern == old(opts).read_concern,
        final(opts).read_prefs == old(opts).read_prefs,
{
    opts.write_concern = Some(write_concern_copy(wc));
}

/// Records the read preference for transactions started with the bag.
pub fn mongoc_transaction_opts_set_read_prefs(
    opts: &mut mongoc_transaction_opt_t,
    rp: &mongoc_read_prefs_t,
)
    ensures
        final(opts).read_prefs == Some(*rp),
        final(opts).max_commit_time_ms == old(opts).max_commit_time_ms,
        final(opts).read_concern == old(opts).read_concern,
        final(opts).write_concern == old(opts).write_concern,
{
    opts.read_prefs = Some(
        mongoc_read_prefs_t { mode: rp.mode, max_staleness_secs: rp.max_staleness_secs },
    );
}

/// Releases the bag.
pub fn mongoc_transaction_opts_destroy(opts: mongoc_transaction_opt_t) {
    let _ = opts;
}

/// Copies a transaction option bag, contents included.
pub fn transaction_opts_copy(opts: &mongoc_transaction_opt_t) -> (r: mongoc_transaction_opt_t)
    ensures
        r.max_commit_time_ms == opts.max_commit_time_ms,
        r.read_concern == opts.read_concern,
        r.write_concern == opts.write_concern,
        r.read_prefs == opts.read_prefs,
{
    mongoc_transaction_opt_t {
        max_commit_time_ms: opts.max_commit_time_ms,
        read_concern: match &opts.read_concern {
            Some(rc) => Some(read_concern_copy(rc)),
            None => None,
        },
        write_concern: match &opts.write_concern {
            Some(wc) => Some(write_concern_copy(wc)),
            None => None,
        },
        read_prefs: match &opts.read_prefs {
            Some(rp) => Some(
                mongoc_read_prefs_t {
                    mode: rp.mode,
                    max_staleness_secs: rp.max_staleness_secs,
                },
            ),
            None => None,
        },
    }
}

/// The session option bag.
#[allow(non_camel_case_types)]
pub struct mongoc_session_opt_t {
    pub causal_consistency: Option<bool>,
    pub snapshot: Option<bool>,
    pub default_transaction_opts: Option<mongoc_transaction_opt_t>,
}

/// A fresh bag with every knob unset.
pub fn mongoc_session_opts_new() -> (o: mongoc_session_opt_t)
    ensures
        o.causal_consistency is None,
        o.snapshot is None,
        o.default_transaction_opts is None,
{
    mongoc_session_opt_t {
        causal_consistency: None,
        snapshot: None,
        default_transaction_opts: None,
    }
}

/// Records the causal-consistency knob.
pub fn mongoc_session_opts_set_causal_consistency(opts: &mut mongoc_session_opt_t, cc: bool)
    ensures
        final(opts).causal_consistency == Some(cc),
        final(opts).snapshot == old(opts).snapshot,
{
    opts.causal_consistency = Some(cc);
}

/// Records the snapshot knob.
pub fn mongoc_session_opts_set_snapshot(opts: &mut mongoc_session_opt_t, snapshot: bool)
    ensures
        final(opts).snapshot == Some(snapshot),
        final(opts).causal_consistency == old(opts).causal_consistency,
{
    opts.snapshot = Some(snapshot);
}

/// Records the default transaction options.
pub fn mongoc_session_opts_set_default_transaction_opts(
    opts: &mut mongoc_session_opt_t,
    txn_opts: &mongoc_transaction_opt_t,
)
    ensures
        final(opts).default_transaction_opts == Some(*txn_opts),
        final(opts).causal_consistency == old(opts).causal_consistency,
        final(opts).snapshot == old(opts).snapshot,
{
    opts.default_transaction_opts = Some(transaction_opts_copy(txn_opts));
}

/// Releases the bag.
pub fn mongoc_session_opts_destroy(opts: mongoc_session_opt_t) {
    let _ = opts;
}

} // verus!
