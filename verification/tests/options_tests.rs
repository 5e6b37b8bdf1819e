use mongoc_compat::read_concern::{
    mongoc_read_concern_destroy, mongoc_read_concern_get_level, mongoc_read_concern_new,
    mongoc_read_concern_set_level,
};
use mongoc_compat::read_pref::{
    mongoc_read_prefs_destroy, mongoc_read_prefs_get_max_staleness_seconds,
    mongoc_read_prefs_get_mode, mongoc_read_prefs_new,
    mongoc_read_prefs_set_max_staleness_seconds, read_mode_value, mongoc_read_mode_t,
    MONGOC_NO_MAX_STALENESS,
};
use mongoc_compat::write_concern::{
    mongoc_write_concern_destroy, mongoc_write_concern_get_journal,
    mongoc_write_concern_get_w, mongoc_write_concern_get_wtag,
    mongoc_write_concern_get_wtimeout_int64, mongoc_write_concern_journal_is_set,
    mongoc_write_concern_new, mongoc_write_concern_set_journal, mongoc_write_concern_set_w,
    mongoc_write_concern_set_wtag, mongoc_write_concern_set_wtimeout_int64,
    MONGOC_WRITE_CONCERN_W_DEFAULT, MONGOC_WRITE_CONCERN_W_TAG,
};

#[test]
fn write_concern_w_round_trips_for_counts() {
    let mut wc = mongoc_write_concern_new();
    assert_eq!(mongoc_write_concern_get_w(&wc), MONGOC_WRITE_CONCERN_W_DEFAULT);
    assert!(mongoc_write_concern_set_w(&mut wc, 2));
    assert_eq!(mongoc_write_concern_get_w(&wc), 2);
    assert!(mongoc_write_concern_set_w(&mut wc, 0));
    assert_eq!(mongoc_write_concern_get_w(&wc), 0);
    mongoc_write_concern_destroy(wc);
}

#[test]
fn write_concern_negative_w_is_refused_by_set_w() {
    let mut wc = mongoc_write_concern_new();
    assert!(mongoc_write_concern_set_w(&mut wc, 2));
    assert!(!mongoc_write_concern_set_w(&mut wc, -3));
    assert_eq!(mongoc_write_concern_get_w(&wc), 2);
}

#[test]
fn write_concern_wtag_reports_tag_sentinel() {
    let mut wc = mongoc_write_concern_new();
    assert!(mongoc_write_concern_set_wtag(&mut wc, "east"));
    assert_eq!(mongoc_write_concern_get_w(&wc), MONGOC_WRITE_CONCERN_W_TAG);
    assert_eq!(mongoc_write_concern_get_wtag(&wc), Some("east"));
}

#[test]
fn write_concern_journal_round_trips() {
    let mut wc = mongoc_write_concern_new();
    assert!(!mongoc_write_concern_journal_is_set(&wc));
    assert!(mongoc_write_concern_get_journal(&wc)); // unset reads as on
    assert!(mongoc_write_concern_set_journal(&mut wc, false));
    assert!(mongoc_write_concern_journal_is_set(&wc));
    assert!(!mongoc_write_concern_get_journal(&wc));
}

#[test]
fn write_concern_wtimeout_round_trips_and_clears() {
    let mut wc = mongoc_write_concern_new();
    assert_eq!(mongoc_write_concern_get_wtimeout_int64(&wc), -1);
    assert!(mongoc_write_concern_set_wtimeout_int64(&mut wc, 1500));
    assert_eq!(mongoc_write_concern_get_wtimeout_int64(&wc), 1500);
    assert!(mongoc_write_concern_set_wtimeout_int64(&mut wc, -1));
    assert_eq!(mongoc_write_concern_get_wtimeout_int64(&wc), -1);
}

#[test]
fn read_concern_named_levels_round_trip() {
    for level in ["local", "available", "linearizeable", "majority", "snapshot"] {
        let mut rc = mongoc_read_concern_new();
        assert_eq!(mongoc_read_concern_get_level(&rc), None);
        assert!(mongoc_read_concern_set_level(&mut rc, level));
        assert_eq!(mongoc_read_concern_get_level(&rc), Some(level));
        mongoc_read_concern_destroy(rc);
    }
}

#[test]
fn read_concern_custom_level_carries_the_raw_string() {
    let mut rc = mongoc_read_concern_new();
    assert!(mongoc_read_concern_set_level(&mut rc, "somethingElse"));
    assert_eq!(mongoc_read_concern_get_level(&rc), Some("somethingElse"));
}

#[test]
fn read_mode_bit_constants_match_the_legacy_header() {
    assert_eq!(read_mode_value(mongoc_read_mode_t::MONGOC_READ_PRIMARY), 1);
    assert_eq!(read_mode_value(mongoc_read_mode_t::MONGOC_READ_SECONDARY), 2);
    assert_eq!(read_mode_value(mongoc_read_mode_t::MONGOC_READ_PRIMARY_PREFERRED), 5);
    assert_eq!(read_mode_value(mongoc_read_mode_t::MONGOC_READ_SECONDARY_PREFERRED), 6);
    assert_eq!(read_mode_value(mongoc_read_mode_t::MONGOC_READ_NEAREST), 10);
}

#[test]
fn read_prefs_mode_round_trips() {
    let rp = mongoc_read_prefs_new(mongoc_read_mode_t::MONGOC_READ_NEAREST);
    assert!(matches!(
        mongoc_read_prefs_get_mode(&rp),
        mongoc_read_mode_t::MONGOC_READ_NEAREST
    ));
    mongoc_read_prefs_destroy(rp);
}

#[test]
fn read_prefs_staleness_rejected_on_primary() {
    let mut rp = mongoc_read_prefs_new(mongoc_read_mode_t::MONGOC_READ_PRIMARY);
    assert!(!mongoc_read_prefs_set_max_staleness_seconds(&mut rp, 100));
    assert_eq!(mongoc_read_prefs_get_max_staleness_seconds(&rp), MONGOC_NO_MAX_STALENESS);
}

#[test]
fn read_prefs_staleness_round_trips_on_secondary() {
    let mut rp = mongoc_read_prefs_new(mongoc_read_mode_t::MONGOC_READ_SECONDARY);
    assert_eq!(mongoc_read_prefs_get_max_staleness_seconds(&rp), -1);
    assert!(mongoc_read_prefs_set_max_staleness_seconds(&mut rp, 90));
    assert_eq!(mongoc_read_prefs_get_max_staleness_seconds(&rp), 90);
    // A negative bound clears the knob, as the wtimeout setter does.
    assert!(mongoc_read_prefs_set_max_staleness_seconds(&mut rp, -5));
    assert_eq!(mongoc_read_prefs_get_max_staleness_seconds(&rp), MONGOC_NO_MAX_STALENESS);
}
