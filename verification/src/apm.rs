//! Placeholder application-performance-monitoring events. The backing
//! driver's events are not bridged, so these getters report fixed
//! placeholder values, as legacy callers of an unbridged monitor see.

use vstd::prelude::*;

use crate::bson::{bson_oid_t, bson_t};

verus! {

/// A command-started event; never actually produced.
#[allow(non_camel_case_types)]
pub struct mongoc_apm_command_started_t {
    pub reserved: bool,
}

/// A host-list node; contents opaque at the legacy interface.
#[allow(non_camel_case_types)]
pub struct mongoc_host_list_t {
    pub reserved: bool,
}

/// A command-succeeded event; never actually produced.
#[allow(non_camel_case_types)]
pub struct mongoc_apm_command_succeeded_t {
    pub reserved: bool,
}

/// No caller context is carried.
pub fn mongoc_apm_command_started_get_context(event: &mongoc_apm_command_started_t) -> (r: Option<
    &bson_t,
>)
    ensures
        r is None,
{
    let _ = event;
    None
}

/// No command document is carried.
pub fn mongoc_apm_command_started_get_command(event: &mongoc_apm_command_started_t) -> (r: Option<
    &bson_t,
>)
    ensures
        r is None,
{
    let _ = event;
    None
}

/// The placeholder database name.
pub fn mongoc_apm_command_started_get_database_name(
    event: &mongoc_apm_command_started_t,
) -> (r: &'static str)
    ensures
        r@ == "placeholder"@,
{
    let _ = event;
    "placeholder"
}

/// The placeholder command name.
pub fn mongoc_apm_command_started_get_command_name(
    event: &mongoc_apm_command_started_t,
) -> (r: &'static str)
    ensures
        r@ == "placeholder"@,
{
    let _ = event;
    "placeholder"
}

/// The placeholder request id.
pub fn mongoc_apm_command_started_get_request_id(event: &mongoc_apm_command_started_t) -> (r: i64)
    ensures
        r == 12,
{
    let _ = event;
    12
}

/// The placeholder operation id.
pub fn mongoc_apm_command_started_get_operation_id(event: &mongoc_apm_command_started_t) -> (r:
    i64)
    ensures
        r == 12,
{
    let _ = event;
    12
}

/// No host list is carried.
pub fn mongoc_apm_command_started_get_host(event: &mongoc_apm_command_started_t) -> (r: Option<
    &mongoc_host_list_t,
>)
    ensures
        r is None,
{
    let _ = event;
    None
}

/// No service id is carried.
pub fn mongoc_apm_command_started_get_service_id(event: &mongoc_apm_command_started_t) -> (r:
    Option<&bson_oid_t>)
    ensures
        r is None,
{
    let _ = event;
    None
}

/// No caller context is carried.
pub fn mongoc_apm_command_succeeded_get_context(event: &mongoc_apm_command_succeeded_t) -> (r:
    Option<&bson_t>)
    ensures
        r is None,
{
    let _ = event;
    None
}

/// The placeholder duration.
pub fn mongoc_apm_command_succeeded_get_duration(event: &mongoc_apm_command_succeeded_t) -> (r:
    i64)
    ensures
        r == 12,
{
    let _ = event;
    12
}

/// No reply document is carried.
pub fn mongoc_apm_command_succeeded_get_reply(event: &mongoc_apm_command_succeeded_t) -> (r:
    Option<&bson_t>)
    ensures
        r is None,
{
    let _ = event;
    None
}

} // verus!
