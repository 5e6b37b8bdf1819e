//! The write-concern bag. The acknowledgment knob `w` uses sentinels at the
//! legacy interface: non-negative values are node counts; the default, the
//! majority level and a tag each have a negative sentinel, reachable only
//! through their dedicated setters.

use vstd::prelude::*;

verus! {

pub const MONGOC_WRITE_CONCERN_W_DEFAULT: i32 = -2;

pub const MONGOC_WRITE_CONCERN_W_MAJORITY: i32 = -3;

pub const MONGOC_WRITE_CONCERN_W_TAG: i32 = -4;

/// The acknowledgment a write waits for: a node count, the majority of the
/// replica set, or the nodes carrying a tag.
pub enum WriteAck {
    Nodes(u32),
    Majority,
    Tag(String),
}

/// The write-concern bag: acknowledgment, journaling, and a timeout in
/// milliseconds. Absent fields defer to the backing driver's defaults.
#[allow(non_camel_case_types)]
pub struct mongoc_write_concern_t {
    pub w: Option<WriteAck>,
    pub journal: Option<bool>,
    pub wtimeout_ms: Option<i64>,
}

impl mongoc_write_concern_t {
    /// A node count never exceeds what the 32-bit getter can report, and a
    /// stored timeout is non-negative.
    pub open spec fn wf(&self) -> bool {
        &&& (self.w matches Some(WriteAck::Nodes(n)) ==> n <= 0x7FFF_FFFF)
        &&& (self.wtimeout_ms matches Some(t) ==> t >= 0)
    }
}

/// What the journaling getter reports: the held knob, or on when unset.
pub open spec fn spec_get_journal(j: Option<bool>) -> bool {
    if j is Some {
        j.unwrap()
    } else {
        true
    }
}

/// What the timeout getter reports: the held milliseconds, or `-1` when
/// unset.
pub open spec fn spec_get_wtimeout(t: Option<i64>) -> i64 {
    if t is Some {
        t.unwrap()
    } else {
        -1i64
    }
}

/// The sentinel or count the getter reports for an acknowledgment state.
pub open spec fn spec_get_w(w: Option<WriteAck>) -> i32 {
    match w {
        None => MONGOC_WRITE_CONCERN_W_DEFAULT,
        Some(WriteAck::Majority) => MONGOC_WRITE_CONCERN_W_MAJORITY,
        Some(WriteAck::Tag(_)) => MONGOC_WRITE_CONCERN_W_TAG,
        Some(WriteAck::Nodes(n)) => n as i32,
    }
}

/// A fresh bag with every knob unset.
pub fn mongoc_write_concern_new() -> (wc: mongoc_write_concern_t)
    ensures
        wc.w is None,
        wc.journal is None,
        wc.wtimeout_ms is None,
        wc.wf(),
{
    mongoc_write_concern_t { w: None, journal: None, wtimeout_ms: None }
}

/// Whether journaling has been set at all.
pub fn mongoc_write_concern_journal_is_set(wc: &mongoc_write_concern_t) -> (r: bool)
    ensures
        r == (wc.journal is Some),
{
    wc.journal.is_some()
}

/// The journaling knob; an unset knob reads as on.
pub fn mongoc_write_concern_get_journal(wc: &mongoc_write_concern_t) -> (r: bool)
    ensures
        r == spec_get_journal(wc.journal),
{
    match wc.journal {
        Some(j) => j,
        None => true,
    }
}

/// Sets the journaling knob.
pub fn mongoc_write_concern_set_journal(wc: &mut mongoc_write_concern_t, journal: bool) -> (ok:
    bool)
    ensures
        ok,
        final(wc).journal == Some(journal),
        final(wc).w == old(wc).w,
        final(wc).wtimeout_ms == old(wc).wtimeout_ms,
{
    wc.journal = Some(journal);
    true
}

/// The `w` knob as the legacy interface reports it: a node count, or the
/// sentinel of the default, majority or tag state.
pub fn mongoc_write_concern_get_w(wc: &mongoc_write_concern_t) -> (r: i32)
    requires
        wc.wf(),
    ensures
        r == spec_get_w(wc.w),
{
    match &wc.w {
        None => MONGOC_WRITE_CONCERN_W_DEFAULT,
        Some(WriteAck::Majority) => MONGOC_WRITE_CONCERN_W_MAJORITY,
        Some(WriteAck::Tag(_)) => MONGOC_WRITE_CONCERN_W_TAG,
        Some(WriteAck::Nodes(n)) => *n as i32,
    }
}

/// Sets `w` to a node count. Negative values are refused here: the negative
/// sentinels are reached only through their dedicated setters.
pub fn mongoc_write_concern_set_w(wc: &mut mongoc_write_concern_t, w: i32) -> (ok: bool)
    ensures
        ok == (w >= 0),
        w >= 0 ==> final(wc).w == Some(WriteAck::Nodes(w as u32)),
        w < 0 ==> *final(wc) == *old(wc),
        final(wc).journal == old(wc).journal,
        final(wc).wtimeout_ms == old(wc).wtimeout_ms,
        old(wc).wf() ==> final(wc).wf(),
{
    if w >= 0 {
        wc.w = Some(WriteAck::Nodes(w as u32));
        true
    } else {
        false
    }
}

/// The tag when `w` names one.
pub fn mongoc_write_concern_get_wtag<'a>(wc: &'a mongoc_write_concern_t) -> (r: Option<&'a str>)
    ensures
        (r is Some) == (wc.w matches Some(WriteAck::Tag(_))),
        r matches Some(s) ==> wc.w matches Some(WriteAck::Tag(t)) && s@ == t@,
{
    match &wc.w {
        Some(WriteAck::Tag(t)) => Some(t.as_str()),
        _ => None,
    }
}

/// Sets `w` to the nodes carrying a tag; `get_w` then reports the tag
/// sentinel.
pub fn mongoc_write_concern_set_wtag(wc: &mut mongoc_write_concern_t, tag: &str) -> (ok: bool)
    ensures
        ok,
        final(wc).w matches Some(WriteAck::Tag(t)) && t@ == tag@,
        final(wc).journal == old(wc).journal,
        final(wc).wtimeout_ms == old(wc).wtimeout_ms,
        old(wc).wf() ==> final(wc).wf(),
{
    wc.w = Some(WriteAck::Tag(tag.to_owned()));
    true
}

/// The write timeout in milliseconds; an unset timeout reads as `-1`.
pub fn mongoc_write_concern_get_wtimeout_int64(wc: &mongoc_write_concern_t) -> (r: i64)
    ensures
        r == spec_get_wtimeout(wc.wtimeout_ms),
{
    match wc.wtimeout_ms {
        Some(t) => t,
        None => -1,
    }
}

/// Sets the write timeout in milliseconds; a negative value clears it, so
/// the getter reports `-1` again.
pub fn mongoc_write_concern_set_wtimeout_int64(wc: &mut mongoc_write_concern_t, wtimeout: i64) -> (
    ok: bool)
    ensures
        ok,
        wtimeout >= 0 ==> final(wc).wtimeout_ms == Some(wtimeout),
        wtimeout < 0 ==> final(wc).wtimeout_ms is None,
        final(wc).w == old(wc).w,
        final(wc).journal == old(wc).journal,
        old(wc).wf() ==> final(wc).wf(),
{
    if wtimeout >= 0 {
        wc.wtimeout_ms = Some(wtimeout);
    } else {
        wc.wtimeout_ms = None;
    }
    true
}

/// Releases the bag.
pub fn mongoc_write_concern_destroy(wc: mongoc_write_concern_t) {
    let _ = wc;
}

/// A non-negative node count round-trips through the setter and getter.
pub proof fn lemma_w_round_trip(w: i32)
    requires
        w >= 0,
    ensures
        spec_get_w(Some(WriteAck::Nodes(w as u32))) == w,
{
}

/// The journaling knob round-trips: after the setter holds a value, the
/// getter reports exactly it.
pub proof fn lemma_journal_round_trip(j: bool)
    ensures
        spec_get_journal(Some(j)) == j,
{
}

/// A stored timeout round-trips through the getter, and a cleared knob
/// reports the unset sentinel.
pub proof fn lemma_wtimeout_round_trip(t: i64)
    ensures
        spec_get_wtimeout(Some(t)) == t,
        spec_get_wtimeout(None) == -1,
{
}

/// After the tag setter, the getter reports the tag sentinel, never the
/// majority one: a majority acknowledgment is reachable only through its own
/// path.
pub proof fn lemma_wtag_reports_tag_sentinel(t: String)
    ensures
        spec_get_w(Some(WriteAck::Tag(t))) == MONGOC_WRITE_CONCERN_W_TAG,
        spec_get_w(Some(WriteAck::Tag(t))) != MONGOC_WRITE_CONCERN_W_MAJORITY,
{
}

} // verus!
