//! The server-api bag: a declared server API version with its two knobs.

use vstd::prelude::*;

verus! {

/// The declarable server API versions.
#[allow(non_camel_case_types)]
#[derive(Clone, Copy, PartialEq, Eq, Structural)]
pub enum mongoc_server_api_version_t {
    MONGOC_SERVER_API_V1,
}

/// The server-api bag.
#[allow(non_camel_case_types)]
pub struct mongoc_server_api_t {
    pub version: mongoc_server_api_version_t,
    pub strict: Option<bool>,
    pub deprecation_errors: Option<bool>,
}

/// A fresh bag declaring the version, with both knobs unset.
pub fn mongoc_server_api_new(version: mongoc_server_api_version_t) -> (a: mongoc_server_api_t)
    ensures
        a.version == version,
        a.strict is None,
        a.deprecation_errors is None,
{
    mongoc_server_api_t { version, strict: None, deprecation_errors: None }
}

/// Records the deprecation-errors knob.
pub fn mongoc_server_api_deprecation_errors(api: &mut mongoc_server_api_t, de: bool)
    ensures
        final(api).deprecation_errors == Some(de),
        final(api).version == old(api).version,
        final(api).strict == old(api).strict,
{
    api.deprecation_errors = Some(de);
}

/// Records the strict knob.
pub fn mongoc_server_api_strict(api: &mut mongoc_server_api_t, strict: bool)
    ensures
        final(api).strict == Some(strict),
        final(api).version == old(api).version,
        final(api).deprecation_errors == old(api).deprecation_errors,
{
    api.strict = Some(strict);
}

/// Releases the bag.
pub fn mongoc_server_api_destroy(api: mongoc_server_api_t) {
    let _ = api;
}

} // verus!
