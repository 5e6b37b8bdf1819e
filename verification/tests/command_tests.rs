use mongoc_compat::bson::{bson_append_int32, bson_new};
use mongoc_compat::command::{build_command_with_opts, command_reply};
use mongoc_compat::error::{
    bson_error_t, MONGOC_ERROR_DOMAIN_ARGUMENT, MONGOC_ERROR_DOMAIN_BSON,
    MONGOC_ERROR_DOMAIN_DRIVER,
};
use mongoc_compat::pipeline::make_agg_pipeline;

fn doc_of(pairs: &[(&str, i32)]) -> mongoc_compat::bson::bson_t {
    let mut b = bson_new();
    for (k, v) in pairs {
        assert!(bson_append_int32(&mut b, k, -1, *v));
    }
    b
}

fn decode(d: &mongodb::bson::raw::RawDocumentBuf) -> mongodb::bson::Document {
    d.to_document().expect("elements")
}

#[test]
fn merge_lets_option_keys_win() {
    let cmd = doc_of(&[("a", 1), ("b", 2)]);
    let opts = doc_of(&[("b", 3), ("c", 4)]);
    let mut err = bson_error_t::new();
    let merged = build_command_with_opts(&cmd, Some(&opts), &mut err).expect("merge");
    let doc = decode(&merged);
    assert_eq!(doc.len(), 3);
    assert_eq!(doc.get_i32("a").unwrap(), 1);
    assert_eq!(doc.get_i32("b").unwrap(), 3);
    assert_eq!(doc.get_i32("c").unwrap(), 4);
    let keys: Vec<&str> = doc.keys().map(|k| k.as_str()).collect();
    assert_eq!(keys, vec!["a", "b", "c"]);
}

#[test]
fn null_opts_equal_empty_opts() {
    let cmd = doc_of(&[("ping", 1)]);
    let empty = bson_new();
    let mut err = bson_error_t::new();
    let with_none = build_command_with_opts(&cmd, None, &mut err).expect("merge");
    let with_empty = build_command_with_opts(&cmd, Some(&empty), &mut err).expect("merge");
    assert_eq!(with_none.as_bytes(), with_empty.as_bytes());
}

#[test]
fn merge_dedups_duplicate_command_keys() {
    // A raw buffer can carry the same key twice; the ordered-map conversion
    // keeps the first position with the last value, as the driver does.
    let cmd = doc_of(&[("a", 1), ("a", 2), ("b", 3)]);
    let mut err = bson_error_t::new();
    let merged = build_command_with_opts(&cmd, None, &mut err).expect("merge");
    let doc = decode(&merged);
    assert_eq!(doc.len(), 2);
    assert_eq!(doc.get_i32("a").unwrap(), 2);
    let keys: Vec<&str> = doc.keys().map(|k| k.as_str()).collect();
    assert_eq!(keys, vec!["a", "b"]);
}

#[test]
fn command_reply_wraps_success() {
    let mut reply = bson_new();
    let mut err = bson_error_t::new();
    let mut d = mongodb::bson::raw::RawDocumentBuf::new();
    d.append("ok", 1i32);
    assert!(command_reply(Ok(d.clone()), &mut reply, &mut err));
    assert_eq!(mongoc_compat::bson::bson_get_data(&reply), d.as_bytes());
}

#[test]
fn command_reply_fills_error_on_driver_failure() {
    let mut reply = bson_new();
    let before: Vec<u8> = mongoc_compat::bson::bson_get_data(&reply).to_vec();
    let mut err = bson_error_t::new();
    assert!(!command_reply(
        Err(String::from("connection refused")),
        &mut reply,
        &mut err
    ));
    assert_eq!(err.domain, MONGOC_ERROR_DOMAIN_DRIVER);
    assert_eq!(err.message, b"connection refused".to_vec());
    assert_eq!(mongoc_compat::bson::bson_get_data(&reply), before.as_slice());
}

#[test]
fn error_message_truncates_to_fit_the_record() {
    let mut err = bson_error_t::new();
    let long = "x".repeat(600);
    mongoc_compat::error::bson_set_error(&mut err, MONGOC_ERROR_DOMAIN_DRIVER, 1, long.as_bytes());
    assert_eq!(err.message.len(), 503);
}

#[test]
fn pipeline_accepts_both_shapes_alike() {
    // Array form: a document whose keys are indices and values are stages.
    let mut stage = bson_new();
    assert!(bson_append_int32(&mut stage, "x", -1, 42));
    let mut array_form = bson_new();
    assert!(mongoc_compat::bson::bson_append_document(&mut array_form, "0", -1, &stage));

    // Wrapped form: {pipeline: <that array>}.
    let mut wrapped_form = bson_new();
    assert!(mongoc_compat::bson::bson_append_document(
        &mut wrapped_form,
        "pipeline",
        -1,
        &array_form
    ));

    let mut err = bson_error_t::new();
    let a = make_agg_pipeline(&array_form, &mut err).expect("array form");
    let b = make_agg_pipeline(&wrapped_form, &mut err).expect("wrapped form");
    assert_eq!(a.len(), 1);
    assert_eq!(b.len(), 1);
    assert_eq!(a[0].as_bytes(), b[0].as_bytes());
    assert_eq!(decode(&a[0]).get_i32("x").unwrap(), 42);
}

#[test]
fn pipeline_rejects_other_shapes() {
    let mut bad = bson_new();
    assert!(bson_append_int32(&mut bad, "notapipeline", -1, 1));
    let mut err = bson_error_t::new();
    assert!(make_agg_pipeline(&bad, &mut err).is_none());
    assert_eq!(err.domain, MONGOC_ERROR_DOMAIN_ARGUMENT);
}

#[test]
fn pipeline_rejects_non_document_stages() {
    let mut bad = bson_new();
    assert!(bson_append_int32(&mut bad, "0", -1, 5));
    let mut err = bson_error_t::new();
    assert!(make_agg_pipeline(&bad, &mut err).is_none());
    assert_eq!(err.domain, MONGOC_ERROR_DOMAIN_ARGUMENT);
}

#[test]
fn empty_pipeline_is_accepted() {
    let empty = bson_new();
    let mut err = bson_error_t::new();
    let stages = make_agg_pipeline(&empty, &mut err).expect("empty pipeline");
    assert!(stages.is_empty());
}

#[test]
fn malformed_command_bytes_name_the_bson_domain() {
    // Valid framing, garbage elements: an unknown element type tag.
    let bytes = [8u8, 0, 0, 0, 0xee, 0x41, 0, 0];
    let mut view = bson_new();
    assert!(mongoc_compat::bson::bson_init_static(&mut view, &bytes));
    let mut err = bson_error_t::new();
    assert!(build_command_with_opts(&view, None, &mut err).is_none());
    assert_eq!(err.domain, MONGOC_ERROR_DOMAIN_BSON);
}
