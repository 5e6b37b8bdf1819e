pub mod api;
pub mod apm;
pub mod bson;
pub mod bulk;
pub mod change_stream;
pub mod client;
pub mod client_pool;
pub mod collection;
pub mod command;
pub mod cursor;
pub mod database;
pub mod error;
pub mod find_and_modify;
pub mod pipeline;
pub mod raw_doc;
pub mod read_concern;
pub mod read_pref;
pub mod session;
pub mod strutil;
pub mod uri;
pub mod write_concern;

use vstd::prelude::*;

verus! {

/// Legacy query-flag constants carried at the ABI for compatibility.
/// The flags parameter is advisory and ignored by every operation here.
#[allow(non_camel_case_types)]
#[derive(Clone, Copy, PartialEq, Eq, Structural)]
pub enum mongoc_query_flags_t {
    MONGOC_QUERY_NONE,
    MONGOC_QUERY_TAILABLE_CURSOR,
    MONGOC_QUERY_SECONDARY_OK,
    MONGOC_QUERY_OPLOG_REPLAY,
    MONGOC_QUERY_NO_CURSOR_TIMEOUT,
    MONGOC_QUERY_AWAIT_DATA,
    MONGOC_QUERY_EXHAUST,
    MONGOC_QUERY_PARTIAL,
}

pub open spec fn spec_query_flag_value(f: mongoc_query_flags_t) -> u32 {
    match f {
        mongoc_query_flags_t::MONGOC_QUERY_NONE => 0,
        mongoc_query_flags_t::MONGOC_QUERY_TAILABLE_CURSOR => 2,
        mongoc_query_flags_t::MONGOC_QUERY_SECONDARY_OK => 4,
        mongoc_query_flags_t::MONGOC_QUERY_OPLOG_REPLAY => 8,
        mongoc_query_flags_t::MONGOC_QUERY_NO_CURSOR_TIMEOUT => 16,
        mongoc_query_flags_t::MONGOC_QUERY_AWAIT_DATA => 32,
        mongoc_query_flags_t::MONGOC_QUERY_EXHAUST => 64,
        mongoc_query_flags_t::MONGOC_QUERY_PARTIAL => 128,
    }
}

/// The bit value each query flag has at the C ABI.
pub fn query_flag_value(f: mongoc_query_flags_t) -> (v: u32)
    ensures
        v == spec_query_flag_value(f),
{
    match f {
        mongoc_query_flags_t::MONGOC_QUERY_NONE => 0,
        mongoc_query_flags_t::MONGOC_QUERY_TAILABLE_CURSOR => 2,
        mongoc_query_flags_t::MONGOC_QUERY_SECONDARY_OK => 4,
        mongoc_query_flags_t::MONGOC_QUERY_OPLOG_REPLAY => 8,
        mongoc_query_flags_t::MONGOC_QUERY_NO_CURSOR_TIMEOUT => 16,
        mongoc_query_flags_t::MONGOC_QUERY_AWAIT_DATA => 32,
        mongoc_query_flags_t::MONGOC_QUERY_EXHAUST => 64,
        mongoc_query_flags_t::MONGOC_QUERY_PARTIAL => 128,
    }
}

pub const MONGOC_ERROR_API_VERSION_2: i32 = 2;

/// Library-wide initialization. The backing driver needs none, so this is a no-op
/// kept for callers of the legacy interface.
pub fn mongoc_init() {
}

/// Library-wide teardown; a no-op for the same reason as `mongoc_init`.
pub fn mongoc_cleanup() {
}

/// Records nothing and reports success: the backing driver builds its own
/// handshake metadata and exposes no way to extend it.
pub fn mongoc_handshake_data_append(
    _driver_name: Option<&str>,
    _driver_version: Option<&str>,
    _platform: Option<&str>,
) -> (ok: bool)
    ensures
        ok,
{
    true
}

} // verus!
