//! The read-preference bag: a server-selection mode and an optional
//! staleness bound. The primary mode admits no staleness bound.

use vstd::prelude::*;

use crate::bson::bson_t;

verus! {

pub const MONGOC_SMALLEST_MAX_STALENESS_SECONDS: i64 = 90;

pub const MONGOC_NO_MAX_STALENESS: i64 = -1;

/// The server-selection modes of the legacy interface.
#[allow(non_camel_case_types)]
#[derive(Clone, Copy, PartialEq, Eq, Structural)]
pub enum mongoc_read_mode_t {
    MONGOC_READ_PRIMARY,
    MONGOC_READ_SECONDARY,
    MONGOC_READ_PRIMARY_PREFERRED,
    MONGOC_READ_SECONDARY_PREFERRED,
    MONGOC_READ_NEAREST,
}

/// The bit-constant each mode has at the C ABI: primary and secondary are
/// single bits, the preferred forms add the preference bit, and nearest is
/// built on the secondary bit.
pub open spec fn spec_read_mode_value(m: mongoc_read_mode_t) -> i32 {
    match m {
        mongoc_read_mode_t::MONGOC_READ_PRIMARY => 1,
        mongoc_read_mode_t::MONGOC_READ_SECONDARY => 2,
        mongoc_read_mode_t::MONGOC_READ_PRIMARY_PREFERRED => 5,
        mongoc_read_mode_t::MONGOC_READ_SECONDARY_PREFERRED => 6,
        mongoc_read_mode_t::MONGOC_READ_NEAREST => 10,
    }
}

pub fn read_mode_value(m: mongoc_read_mode_t) -> (v: i32)
    ensures
        v == spec_read_mode_value(m),
{
    match m {
        mongoc_read_mode_t::MONGOC_READ_PRIMARY => 1,
        mongoc_read_mode_t::MONGOC_READ_SECONDARY => 2,
        mongoc_read_mode_t::MONGOC_READ_PRIMARY_PREFERRED => 5,
        mongoc_read_mode_t::MONGOC_READ_SECONDARY_PREFERRED => 6,
        mongoc_read_mode_t::MONGOC_READ_NEAREST => 10,
    }
}

/// The read-preference bag.
#[allow(non_camel_case_types)]
pub struct mongoc_read_prefs_t {
    pub mode: mongoc_read_mode_t,
    pub max_staleness_secs: Option<i64>,
}

impl mongoc_read_prefs_t {
    /// A staleness bound is non-negative and never set on the primary mode.
    pub open spec fn wf(&self) -> bool {
        &&& (self.max_staleness_secs matches Some(s) ==> s >= 0)
        &&& (self.mode == mongoc_read_mode_t::MONGOC_READ_PRIMARY ==> self.max_staleness_secs
            is None)
    }
}

/// A fresh bag with the given mode and no staleness bound.
pub fn mongoc_read_prefs_new(mode: mongoc_read_mode_t) -> (rp: mongoc_read_prefs_t)
    ensures
        rp.mode == mode,
        rp.max_staleness_secs is None,
        rp.wf(),
{
    mongoc_read_prefs_t { mode, max_staleness_secs: None }
}

/// The mode the bag was created with.
pub fn mongoc_read_prefs_get_mode(rp: &mongoc_read_prefs_t) -> (m: mongoc_read_mode_t)
    ensures
        m == rp.mode,
{
    rp.mode
}

/// Unsupported: tag sets are not translated to the backing driver, so
/// nothing is read back.
pub fn mongoc_read_prefs_get_tags(rp: &mongoc_read_prefs_t) -> (r: Option<&bson_t>)
    ensures
        r is None,
{
    let _ = rp;
    None
}

/// Unsupported: tag sets are not translated to the backing driver; the bag
/// is left unchanged.
pub fn mongoc_read_prefs_set_tags(rp: &mut mongoc_read_prefs_t, tags: &bson_t) -> (ok: bool)
    ensures
        !ok,
        *final(rp) == *old(rp),
{
    let _ = tags;
    false
}

/// The staleness bound in seconds; an unset bound reads as `-1`.
pub fn mongoc_read_prefs_get_max_staleness_seconds(rp: &mongoc_read_prefs_t) -> (r: i64)
    ensures
        r == (if rp.max_staleness_secs is Some { rp.max_staleness_secs.unwrap() } else { MONGOC_NO_MAX_STALENESS }),
{
    match rp.max_staleness_secs {
        Some(s) => s,
        None => MONGOC_NO_MAX_STALENESS,
    }
}

/// Sets the staleness bound. The primary mode admits none: the bag is
/// unchanged and the call reports false. On any other mode a non-negative
/// bound is stored, and a negative one clears the bound — the getter then
/// reports the no-max-staleness sentinel again, the same convention the
/// write-concern timeout setter follows.
pub fn mongoc_read_prefs_set_max_staleness_seconds(rp: &mut mongoc_read_prefs_t, seconds: i64) -> (
    ok: bool)
    ensures
        ok == (old(rp).mode != mongoc_read_mode_t::MONGOC_READ_PRIMARY),
        ok && seconds >= 0 ==> final(rp).max_staleness_secs == Some(seconds),
        ok && seconds < 0 ==> final(rp).max_staleness_secs is None,
        ok ==> final(rp).mode == old(rp).mode,
        !ok ==> *final(rp) == *old(rp),
        old(rp).wf() ==> final(rp).wf(),
{
    if matches!(rp.mode, mongoc_read_mode_t::MONGOC_READ_PRIMARY) {
        return false;
    }
    if seconds < 0 {
        rp.max_staleness_secs = None;
        return true;
    }
    rp.max_staleness_secs = Some(seconds);
    true
}

/// Releases the bag.
pub fn mongoc_read_prefs_destroy(rp: mongoc_read_prefs_t) {
    let _ = rp;
}

/// A staleness bound round-trips on every non-primary mode; the mode itself
/// always round-trips through its getter.
pub proof fn lemma_read_prefs_round_trip(mode: mongoc_read_mode_t, seconds: i64)
    requires
        mode != mongoc_read_mode_t::MONGOC_READ_PRIMARY,
        seconds >= 0,
    ensures
        (mongoc_read_prefs_t { mode, max_staleness_secs: Some(seconds) }).max_staleness_secs
            matches Some(s) && s == seconds,
{
}

} // verus!
