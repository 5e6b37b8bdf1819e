use mongoc_compat::uri::{
    mongoc_uri_copy, mongoc_uri_destroy, mongoc_uri_get_auth_mechanism,
    mongoc_uri_get_auth_source, mongoc_uri_get_password, mongoc_uri_get_service,
    mongoc_uri_get_string, mongoc_uri_get_username, mongoc_uri_has_option, mongoc_uri_new,
    mongoc_uri_set_auth_mechanism, mongoc_uri_set_auth_source, mongoc_uri_set_password,
    mongoc_uri_set_username, MONGOC_URI_APPNAME, MONGOC_URI_WTIMEOUTMS,
};

#[test]
fn uri_keeps_its_string() {
    let u = mongoc_uri_new("mongodb://localhost:27017");
    assert_eq!(mongoc_uri_get_string(&u), "mongodb://localhost:27017");
    mongoc_uri_destroy(u);
}

#[test]
fn service_is_reported_only_for_srv() {
    let plain = mongoc_uri_new("mongodb://host/");
    assert_eq!(mongoc_uri_get_service(&plain), None);
    let srv = mongoc_uri_new("mongodb+srv://cluster.example.com/");
    assert_eq!(mongoc_uri_get_service(&srv), Some("mongodb+srv://"));
}

#[test]
fn credential_assembly_round_trips() {
    let mut u = mongoc_uri_new("mongodb://host/");
    assert_eq!(mongoc_uri_get_username(&u), None);
    assert!(mongoc_uri_set_username(&mut u, "u"));
    assert!(mongoc_uri_set_password(&mut u, "p"));
    assert!(mongoc_uri_set_auth_source(&mut u, "admin"));
    assert!(mongoc_uri_set_auth_mechanism(&mut u, "SCRAM-SHA-256"));
    assert_eq!(mongoc_uri_get_username(&u), Some("u"));
    assert_eq!(mongoc_uri_get_password(&u), Some("p"));
    assert_eq!(mongoc_uri_get_auth_source(&u), Some("admin"));
    assert_eq!(mongoc_uri_get_auth_mechanism(&u), Some("SCRAM-SHA-256"));
}

#[test]
fn unknown_mechanism_is_refused() {
    let mut u = mongoc_uri_new("mongodb://host/");
    assert!(!mongoc_uri_set_auth_mechanism(&mut u, "NOT-A-MECHANISM"));
    assert_eq!(mongoc_uri_get_auth_mechanism(&u), None);
    assert!(mongoc_uri_set_auth_mechanism(&mut u, "PLAIN"));
    assert_eq!(mongoc_uri_get_auth_mechanism(&u), Some("PLAIN"));
}

#[test]
fn copy_carries_the_overlay() {
    let mut u = mongoc_uri_new("mongodb://host/");
    assert!(mongoc_uri_set_username(&mut u, "carol"));
    let c = mongoc_uri_copy(&u);
    assert_eq!(mongoc_uri_get_string(&c), "mongodb://host/");
    assert_eq!(mongoc_uri_get_username(&c), Some("carol"));
}

#[test]
fn option_key_constants_are_the_legacy_strings() {
    assert_eq!(MONGOC_URI_APPNAME, "appname");
    assert_eq!(MONGOC_URI_WTIMEOUTMS, "wtimeoutms");
    let u = mongoc_uri_new("mongodb://host/?appname=x");
    assert!(!mongoc_uri_has_option(&u, MONGOC_URI_APPNAME));
}
