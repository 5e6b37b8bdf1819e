//! The read-concern bag: an optional isolation level. The five named levels
//! map to fixed strings at the legacy interface (including its historical
//! spelling of the linearizable level); any other string becomes a custom
//! level carrying the raw string.

use vstd::prelude::*;

use crate::strutil::str_eq;

verus! {

/// The isolation level a read concern names.
pub enum ReadLevel {
    Local,
    Available,
    Linearizable,
    Majority,
    Snapshot,
    Custom(String),
}

/// The read-concern bag; an absent level defers to the backing driver.
#[allow(non_camel_case_types)]
pub struct mongoc_read_concern_t {
    pub level: Option<ReadLevel>,
}

/// A level as the contracts speak of it: the custom level carries its
/// characters.
pub enum LevelView {
    Local,
    Available,
    Linearizable,
    Majority,
    Snapshot,
    Custom(Seq<char>),
}

pub open spec fn level_view(l: ReadLevel) -> LevelView {
    match l {
        ReadLevel::Local => LevelView::Local,
        ReadLevel::Available => LevelView::Available,
        ReadLevel::Linearizable => LevelView::Linearizable,
        ReadLevel::Majority => LevelView::Majority,
        ReadLevel::Snapshot => LevelView::Snapshot,
        ReadLevel::Custom(s) => LevelView::Custom(s@),
    }
}

/// The level a string names.
pub open spec fn spec_parse_level(s: Seq<char>) -> LevelView {
    if s == "local"@ {
        LevelView::Local
    } else if s == "available"@ {
        LevelView::Available
    } else if s == "linearizeable"@ {
        LevelView::Linearizable
    } else if s == "majority"@ {
        LevelView::Majority
    } else if s == "snapshot"@ {
        LevelView::Snapshot
    } else {
        LevelView::Custom(s)
    }
}

/// The string a level reads back as.
pub open spec fn spec_level_string(l: LevelView) -> Seq<char> {
    match l {
        LevelView::Local => "local"@,
        LevelView::Available => "available"@,
        LevelView::Linearizable => "linearizeable"@,
        LevelView::Majority => "majority"@,
        LevelView::Snapshot => "snapshot"@,
        LevelView::Custom(s) => s,
    }
}

/// A fresh bag with no level.
pub fn mongoc_read_concern_new() -> (rc: mongoc_read_concern_t)
    ensures
        rc.level is None,
{
    mongoc_read_concern_t { level: None }
}

/// Sets the level named by the string; an unrecognized string becomes a
/// custom level carrying it.
pub fn mongoc_read_concern_set_level(rc: &mut mongoc_read_concern_t, level: &str) -> (ok: bool)
    ensures
        ok,
        final(rc).level matches Some(l) && level_view(l) == spec_parse_level(level@),
{
    let l = if str_eq(level, "local") {
        ReadLevel::Local
    } else if str_eq(level, "available") {
        ReadLevel::Available
    } else if str_eq(level, "linearizeable") {
        ReadLevel::Linearizable
    } else if str_eq(level, "majority") {
        ReadLevel::Majority
    } else if str_eq(level, "snapshot") {
        ReadLevel::Snapshot
    } else {
        ReadLevel::Custom(level.to_owned())
    };
    rc.level = Some(l);
    true
}

/// The string of the level held, or nothing when no level is set. A custom
/// level reads back as the raw string it carries.
pub fn mongoc_read_concern_get_level<'a>(rc: &'a mongoc_read_concern_t) -> (r: Option<&'a str>)
    ensures
        (r is Some) == (rc.level is Some),
        r matches Some(s) ==> rc.level matches Some(l) && s@ == spec_level_string(level_view(l)),
{
    match &rc.level {
        None => None,
        Some(ReadLevel::Local) => Some("local"),
        Some(ReadLevel::Available) => Some("available"),
        Some(ReadLevel::Linearizable) => Some("linearizeable"),
        Some(ReadLevel::Majority) => Some("majority"),
        Some(ReadLevel::Snapshot) => Some("snapshot"),
        Some(ReadLevel::Custom(s)) => Some(s.as_str()),
    }
}

/// Releases the bag.
pub fn mongoc_read_concern_destroy(rc: mongoc_read_concern_t) {
    let _ = rc;
}

/// Every level string round-trips: setting a level from a string and reading
/// it back yields the same string, named level or custom.
pub proof fn lemma_level_round_trip(s: Seq<char>)
    ensures
        spec_level_string(spec_parse_level(s)) == s,
{
}

} // verus!
