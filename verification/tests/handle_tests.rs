use mongoc_compat::bson::{bson_append_int32, bson_get_data, bson_new};
use mongoc_compat::mongoc_query_flags_t as QF;
use mongoc_compat::query_flag_value;
use mongoc_compat::session::{mongoc_transaction_state_t as TS, transaction_state_value};
use mongoc_compat::bulk::{
    bulk_delete_reply, bulk_execute_plan, bulk_insert_many_reply, bulk_insert_reply,
    bulk_update_reply, mongoc_bulk_operation_destroy, mongoc_bulk_operation_insert_with_opts,
    mongoc_bulk_operation_t, mongoc_bulk_operation_update_one_with_opts, BulkPlan, BulkState,
};
use mongoc_compat::client::{mongoc_client_get_collection, mongoc_client_get_database,
    mongoc_client_t};
use mongoc_compat::collection::mongoc_collection_build_rename_command;
use mongoc_compat::database::mongoc_database_get_collection;
use mongoc_compat::error::{bson_error_t, MONGOC_ERROR_DOMAIN_ARGUMENT,
    MONGOC_ERROR_DOMAIN_UNSUPPORTED};

fn offline_client() -> mongoc_client_t {
    // Building a client performs no network traffic until an operation runs,
    // so namespace handles can be exercised without a server.
    let client = mongodb::sync::Client::with_uri_str("mongodb://localhost:27017").unwrap();
    mongoc_client_t::from_client(client)
}

fn decode(d: &mongodb::bson::raw::RawDocumentBuf) -> mongodb::bson::Document {
    d.to_document().expect("elements")
}

#[test]
fn namespace_handles_carry_their_names() {
    let client = offline_client();
    let db = mongoc_client_get_database(&client, "test");
    let coll = mongoc_database_get_collection(&db, "c");
    assert_eq!(coll.collection.name(), "c");
    assert_eq!(coll.collection.namespace().to_string(), "test.c");
    let coll2 = mongoc_client_get_collection(&client, "other", "d");
    assert_eq!(coll2.collection.namespace().to_string(), "other.d");
}

#[test]
fn rename_command_has_the_documented_shape() {
    let client = offline_client();
    let coll = mongoc_client_get_collection(&client, "test", "c");
    let mut err = bson_error_t::new();
    let cmd = mongoc_collection_build_rename_command(&coll, "d2", "c2", true, None, &mut err)
        .expect("rename command");
    let doc = decode(&cmd);
    assert_eq!(doc.get_str("renameCollection").unwrap(), "test.c");
    assert_eq!(doc.get_str("to").unwrap(), "d2.c2");
    assert_eq!(doc.get_bool("dropTarget").unwrap(), true);
    let keys: Vec<&str> = doc.keys().map(|k| k.as_str()).collect();
    assert_eq!(keys, vec!["renameCollection", "to", "dropTarget"]);
}

#[test]
fn bulk_two_inserts_fold_into_insert_many() {
    let client = offline_client();
    let coll = mongoc_client_get_collection(&client, "test", "c");
    let mut bulk = mongoc_bulk_operation_t::new(coll.collection);
    let mut d1 = bson_new();
    assert!(bson_append_int32(&mut d1, "a", -1, 1));
    let mut d2 = bson_new();
    assert!(bson_append_int32(&mut d2, "a", -1, 2));
    let mut err = bson_error_t::new();
    assert!(mongoc_bulk_operation_insert_with_opts(&mut bulk, &d1, None, &mut err));
    assert!(matches!(bulk.state, BulkState::InsertOne { .. }));
    assert!(mongoc_bulk_operation_insert_with_opts(&mut bulk, &d2, None, &mut err));
    match &bulk.state {
        BulkState::InsertMany { documents } => {
            assert_eq!(documents.len(), 2);
            assert_eq!(documents[0].as_bytes(), bson_get_data(&d1));
            assert_eq!(documents[1].as_bytes(), bson_get_data(&d2));
        }
        other => panic!("expected a many-insert, got {:?}", std::mem::discriminant(other)),
    }
    mongoc_bulk_operation_destroy(bulk);
}

#[test]
fn bulk_update_after_insert_fails_deterministically() {
    let client = offline_client();
    let coll = mongoc_client_get_collection(&client, "test", "c");
    let mut bulk = mongoc_bulk_operation_t::new(coll.collection);
    let mut d1 = bson_new();
    assert!(bson_append_int32(&mut d1, "a", -1, 1));
    let filter = bson_new();
    let update = bson_new();
    let mut err = bson_error_t::new();
    assert!(mongoc_bulk_operation_insert_with_opts(&mut bulk, &d1, None, &mut err));
    assert!(!mongoc_bulk_operation_update_one_with_opts(
        &mut bulk, &filter, &update, None, &mut err
    ));
    assert_eq!(err.domain, MONGOC_ERROR_DOMAIN_ARGUMENT);
    assert!(matches!(bulk.state, BulkState::InsertOne { .. }));
}

#[test]
fn bulk_execute_plan_yields_the_single_insert() {
    let client = offline_client();
    let coll = mongoc_client_get_collection(&client, "test", "c");
    let mut bulk = mongoc_bulk_operation_t::new(coll.collection);
    assert!(bulk_execute_plan(&mut bulk).is_none());
    let mut d1 = bson_new();
    assert!(bson_append_int32(&mut d1, "a", -1, 1));
    let mut err = bson_error_t::new();
    assert!(mongoc_bulk_operation_insert_with_opts(&mut bulk, &d1, None, &mut err));
    match bulk_execute_plan(&mut bulk).expect("a pending write is executable") {
        BulkPlan::InsertOne { document } => assert_eq!(document.as_bytes(), bson_get_data(&d1)),
        _ => panic!("expected a single-insert plan"),
    }
}

#[test]
fn bulk_execute_plan_yields_the_two_document_insert_and_consumes_it() {
    let client = offline_client();
    let coll = mongoc_client_get_collection(&client, "test", "c");
    let mut bulk = mongoc_bulk_operation_t::new(coll.collection);
    let mut d1 = bson_new();
    assert!(bson_append_int32(&mut d1, "a", -1, 1));
    let mut d2 = bson_new();
    assert!(bson_append_int32(&mut d2, "a", -1, 2));
    let mut err = bson_error_t::new();
    assert!(mongoc_bulk_operation_insert_with_opts(&mut bulk, &d1, None, &mut err));
    assert!(mongoc_bulk_operation_insert_with_opts(&mut bulk, &d2, None, &mut err));
    match bulk_execute_plan(&mut bulk).expect("two inserts are executable") {
        BulkPlan::InsertMany { documents } => {
            assert_eq!(documents.len(), 2);
            assert_eq!(documents[0].as_bytes(), bson_get_data(&d1));
            assert_eq!(documents[1].as_bytes(), bson_get_data(&d2));
        }
        _ => panic!("expected a many-insert plan"),
    }
    // Execute consumed the pending write: the accumulator is fresh again.
    assert!(matches!(bulk.state, BulkState::Fresh));
    assert!(bulk_execute_plan(&mut bulk).is_none());
}

#[test]
fn bulk_replies_count_the_work() {
    let many = bulk_insert_many_reply(2);
    assert_eq!(decode(&many).get_i32("nInserted").unwrap(), 2);
    let upd = bulk_update_reply(3, 1);
    assert_eq!(decode(&upd).get_i64("nMatched").unwrap(), 3);
    assert_eq!(decode(&upd).get_i64("nModified").unwrap(), 1);
    let del = bulk_delete_reply(4);
    assert_eq!(decode(&del).get_i64("nRemoved").unwrap(), 4);
}

#[test]
fn bulk_insert_reply_reports_one_insert() {
    let reply = bulk_insert_reply();
    let doc = decode(&reply);
    assert_eq!(doc.len(), 1);
    assert_eq!(doc.get_i32("nInserted").unwrap(), 1);
}

#[test]
fn unsupported_operations_name_their_domain() {
    let client = offline_client();
    let mut err = bson_error_t::new();
    let pipeline = bson_new();
    assert!(mongoc_compat::client::mongoc_client_watch(&client, &pipeline, None, &mut err)
        .is_none());
    assert_eq!(err.domain, MONGOC_ERROR_DOMAIN_UNSUPPORTED);

    let coll = mongoc_client_get_collection(&client, "test", "c");
    let mut reply = bson_new();
    let query = bson_new();
    let mut err2 = bson_error_t::new();
    assert!(!mongoc_compat::collection::mongoc_collection_find_and_modify_with_opts(
        &coll, &query, None, &mut reply, &mut err2
    ));
    assert_eq!(err2.domain, MONGOC_ERROR_DOMAIN_UNSUPPORTED);
}

#[test]
fn pool_hands_out_clients_offline() {
    let client = mongodb::sync::Client::with_uri_str("mongodb://localhost:27017").unwrap();
    let pool = mongoc_compat::client_pool::mongoc_client_pool_t::from_client(client);
    let c1 = mongoc_compat::client_pool::mongoc_client_pool_pop(&pool);
    let c2 = mongoc_compat::client_pool::mongoc_client_pool_try_pop(&pool);
    mongoc_compat::client_pool::mongoc_client_pool_push(&pool, c1);
    mongoc_compat::client_pool::mongoc_client_pool_push(&pool, c2);
    mongoc_compat::client_pool::mongoc_client_pool_destroy(pool);
}

#[test]
fn server_api_and_session_bags_record_their_knobs() {
    let mut api = mongoc_compat::api::mongoc_server_api_new(
        mongoc_compat::api::mongoc_server_api_version_t::MONGOC_SERVER_API_V1,
    );
    mongoc_compat::api::mongoc_server_api_strict(&mut api, true);
    mongoc_compat::api::mongoc_server_api_deprecation_errors(&mut api, false);
    assert_eq!(api.strict, Some(true));
    assert_eq!(api.deprecation_errors, Some(false));

    let mut so = mongoc_compat::session::mongoc_session_opts_new();
    mongoc_compat::session::mongoc_session_opts_set_causal_consistency(&mut so, true);
    mongoc_compat::session::mongoc_session_opts_set_snapshot(&mut so, false);
    assert_eq!(so.causal_consistency, Some(true));
    assert_eq!(so.snapshot, Some(false));

    let mut to = mongoc_compat::session::mongoc_transaction_opts_new();
    mongoc_compat::session::mongoc_transaction_opts_set_max_commit_time_ms(&mut to, 2500);
    assert_eq!(to.max_commit_time_ms, Some(2500));
    mongoc_compat::session::mongoc_session_opts_set_default_transaction_opts(&mut so, &to);
    assert!(so.default_transaction_opts.is_some());
}

#[test]
fn find_and_modify_bag_records_its_fields() {
    let mut o = mongoc_compat::find_and_modify::mongoc_find_and_modify_opts_new();
    assert!(mongoc_compat::find_and_modify::mongoc_find_and_modify_opts_set_bypass_document_validation(&mut o, true));
    let mut sort = bson_new();
    assert!(bson_append_int32(&mut sort, "a", -1, 1));
    assert!(mongoc_compat::find_and_modify::mongoc_find_and_modify_opts_set_sort(&mut o, &sort));
    assert_eq!(o.bypass_document_validation, Some(true));
    assert_eq!(o.sort.as_ref().unwrap().as_bytes(), bson_get_data(&sort));
    assert_eq!(
        mongoc_compat::find_and_modify::find_and_modify_flag_value(
            mongoc_compat::find_and_modify::mongoc_find_and_modify_flags_t::MONGOC_FIND_AND_MODIFY_RETURN_NEW
        ),
        4
    );
}

#[test]
fn query_flag_values_match_the_legacy_header() {
    assert_eq!(query_flag_value(QF::MONGOC_QUERY_NONE), 0);
    assert_eq!(query_flag_value(QF::MONGOC_QUERY_TAILABLE_CURSOR), 2);
    assert_eq!(query_flag_value(QF::MONGOC_QUERY_SECONDARY_OK), 4);
    assert_eq!(query_flag_value(QF::MONGOC_QUERY_OPLOG_REPLAY), 8);
    assert_eq!(query_flag_value(QF::MONGOC_QUERY_NO_CURSOR_TIMEOUT), 16);
    assert_eq!(query_flag_value(QF::MONGOC_QUERY_AWAIT_DATA), 32);
    assert_eq!(query_flag_value(QF::MONGOC_QUERY_EXHAUST), 64);
    assert_eq!(query_flag_value(QF::MONGOC_QUERY_PARTIAL), 128);
}

#[test]
fn transaction_state_values_match_the_legacy_header() {
    assert_eq!(transaction_state_value(TS::MONGOC_TRANSACTION_NONE), 0);
    assert_eq!(transaction_state_value(TS::MONGOC_TRANSACTION_STARTING), 1);
    assert_eq!(transaction_state_value(TS::MONGOC_TRANSACTION_IN_PROGRESS), 2);
    assert_eq!(transaction_state_value(TS::MONGOC_TRANSACTION_COMMITTED), 3);
    assert_eq!(transaction_state_value(TS::MONGOC_TRANSACTION_ABORTED), 4);
}

#[test]
fn insert_prepare_passes_the_document_through() {
    let mut d = bson_new();
    assert!(bson_append_int32(&mut d, "a", -1, 1));
    let mut err = bson_error_t::new();
    let (doc, opts) =
        mongoc_compat::collection::mongoc_collection_prepare_insert_one(&d, None, &mut err)
            .expect("null options mean defaults");
    assert_eq!(doc.as_bytes(), bson_get_data(&d));
    assert!(opts.is_none());
}

#[test]
fn insert_prepare_rejects_malformed_options() {
    let d = bson_new();
    let bytes = [8u8, 0, 0, 0, 0xee, 0x41, 0, 0];
    let mut bad = bson_new();
    assert!(mongoc_compat::bson::bson_init_static(&mut bad, &bytes));
    let mut err = bson_error_t::new();
    assert!(mongoc_compat::collection::mongoc_collection_prepare_insert_one(
        &d,
        Some(&bad),
        &mut err
    )
    .is_none());
    assert_eq!(err.domain, mongoc_compat::error::MONGOC_ERROR_DOMAIN_BSON);
}
