//! The change-stream handle. The backing driver exposes no change streams
//! on its synchronous surface here, so every operation fails
//! deterministically under the unsupported domain, which legacy callers can
//! route on.

use vstd::prelude::*;

use crate::bson::bson_t;
use crate::client::MONGOC_ERROR_CODE_UNSUPPORTED;
use crate::error::{bson_error_t, bson_set_error, MONGOC_ERROR_DOMAIN_UNSUPPORTED};

verus! {

/// A change-stream handle; never actually produced.
#[allow(non_camel_case_types)]
pub struct mongoc_change_stream_t {
    pub reserved: bool,
}

/// Unsupported: no change stream exists to advance; nothing is produced.
pub fn mongoc_change_stream_next(stream: &mut mongoc_change_stream_t) -> (r: Option<bson_t>)
    ensures
        r is None,
{
    let _ = stream;
    None
}

/// Unsupported: no resume token exists.
pub fn mongoc_change_stream_get_resume_token(stream: &mongoc_change_stream_t) -> (r: Option<
    &bson_t,
>)
    ensures
        r is None,
{
    let _ = stream;
    None
}

/// Reports the unsupported failure every operation on the handle has.
pub fn mongoc_change_stream_error_document(
    stream: &mongoc_change_stream_t,
    error: &mut bson_error_t,
) -> (r: bool)
    ensures
        r,
        final(error).domain == MONGOC_ERROR_DOMAIN_UNSUPPORTED,
        final(error).wf(),
{
    let _ = stream;
    bson_set_error(
        error,
        MONGOC_ERROR_DOMAIN_UNSUPPORTED,
        MONGOC_ERROR_CODE_UNSUPPORTED,
        "change streams are not exposed by the backing driver".as_bytes(),
    );
    true
}

/// Releases the handle.
pub fn mongoc_change_stream_destroy(stream: mongoc_change_stream_t) {
    let _ = stream;
}

} // verus!
