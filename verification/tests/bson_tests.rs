use mongoc_compat::bson::{
    bson_append_array, bson_append_binary, bson_append_bool, bson_append_code,
    bson_append_code_with_scope, bson_append_date_time, bson_append_dbpointer,
    bson_append_decimal128, bson_append_document, bson_append_int32, bson_append_int64,
    bson_append_maxkey, bson_append_minkey, bson_append_null, bson_append_oid,
    bson_append_regex, bson_append_symbol, bson_append_timestamp, bson_append_undefined,
    bson_append_utf8, bson_copy, bson_destroy, bson_get_data, bson_init_static, bson_len,
    bson_new, bson_oid_to_string, bson_to_string, bson_decimal128_t, bson_oid_t,
    bson_subtype_t, subtype_value,
};

fn decode(bytes: &[u8]) -> mongodb::bson::Document {
    mongodb::bson::raw::RawDocumentBuf::from_bytes(bytes.to_vec())
        .expect("framing")
        .to_document()
        .expect("elements")
}

#[test]
fn fresh_document_is_the_empty_frame() {
    let b = bson_new();
    assert_eq!(bson_get_data(&b), &[5u8, 0, 0, 0, 0]);
    assert_eq!(bson_len(&b), 5);
    bson_destroy(b);
}

#[test]
fn init_static_reproduces_bytes_exactly() {
    let mut src = bson_new();
    assert!(bson_append_int32(&mut src, "x", -1, 42));
    assert!(bson_append_utf8(&mut src, "s", -1, "hello", -1));
    let bytes: Vec<u8> = bson_get_data(&src).to_vec();

    let mut view = bson_new();
    assert!(bson_init_static(&mut view, &bytes));
    assert_eq!(bson_get_data(&view), bytes.as_slice());
    assert_eq!(bson_len(&view), bytes.len());
}

#[test]
fn init_static_rejects_bad_framing() {
    let mut b = bson_new();
    assert!(!bson_init_static(&mut b, &[]));
    assert!(!bson_init_static(&mut b, &[4, 0, 0, 0]));
    assert!(!bson_init_static(&mut b, &[6, 0, 0, 0, 0])); // length prefix wrong
    assert!(!bson_init_static(&mut b, &[5, 0, 0, 0, 1])); // no trailing zero
    assert!(bson_init_static(&mut b, &[5, 0, 0, 0, 0]));
}

#[test]
fn appends_on_borrowed_view_are_refused() {
    let mut b = bson_new();
    assert!(bson_init_static(&mut b, &[5, 0, 0, 0, 0]));
    let before: Vec<u8> = bson_get_data(&b).to_vec();
    assert!(!bson_append_int32(&mut b, "x", -1, 1));
    assert!(!bson_append_utf8(&mut b, "s", -1, "v", -1));
    assert!(!bson_append_bool(&mut b, "f", -1, true));
    assert_eq!(bson_get_data(&b), before.as_slice());
}

#[test]
fn append_int32_decodes_back() {
    let mut b = bson_new();
    assert!(bson_append_int32(&mut b, "a", -1, 42));
    let doc = decode(bson_get_data(&b));
    assert_eq!(doc.len(), 1);
    assert_eq!(doc.get_i32("a").unwrap(), 42);
}

#[test]
fn append_int64_decodes_back() {
    let mut b = bson_new();
    assert!(bson_append_int64(&mut b, "big", -1, -7_000_000_000i64));
    let doc = decode(bson_get_data(&b));
    assert_eq!(doc.get_i64("big").unwrap(), -7_000_000_000i64);
}

#[test]
fn append_bool_and_null_decode_back() {
    let mut b = bson_new();
    assert!(bson_append_bool(&mut b, "t", -1, true));
    assert!(bson_append_null(&mut b, "n", -1));
    let doc = decode(bson_get_data(&b));
    assert_eq!(doc.get_bool("t").unwrap(), true);
    assert!(matches!(doc.get("n"), Some(mongodb::bson::Bson::Null)));
}

#[test]
fn append_utf8_decodes_back() {
    let mut b = bson_new();
    assert!(bson_append_utf8(&mut b, "s", -1, "y'all", -1));
    let doc = decode(bson_get_data(&b));
    assert_eq!(doc.get_str("s").unwrap(), "y'all");
}

#[test]
fn append_document_and_array_decode_back() {
    let mut inner = bson_new();
    assert!(bson_append_int32(&mut inner, "x", -1, 1));
    let mut arr_src = bson_new();
    assert!(bson_append_int32(&mut arr_src, "0", -1, 10));
    assert!(bson_append_int32(&mut arr_src, "1", -1, 20));

    let mut b = bson_new();
    assert!(bson_append_document(&mut b, "d", -1, &inner));
    assert!(bson_append_array(&mut b, "a", -1, &arr_src));
    let doc = decode(bson_get_data(&b));
    assert_eq!(doc.get_document("d").unwrap().get_i32("x").unwrap(), 1);
    let arr = doc.get_array("a").unwrap();
    assert_eq!(arr.len(), 2);
    assert_eq!(arr[0], mongodb::bson::Bson::Int32(10));
    assert_eq!(arr[1], mongodb::bson::Bson::Int32(20));
}

#[test]
fn append_binary_keeps_subtype_and_bytes() {
    let mut b = bson_new();
    assert!(bson_append_binary(
        &mut b,
        "bin",
        -1,
        bson_subtype_t::BSON_SUBTYPE_USER,
        &[1, 2, 3],
    ));
    let doc = decode(bson_get_data(&b));
    match doc.get("bin") {
        Some(mongodb::bson::Bson::Binary(bin)) => {
            assert_eq!(bin.bytes, vec![1, 2, 3]);
            assert_eq!(u8::from(bin.subtype), 0x80);
        }
        other => panic!("expected binary, got {:?}", other),
    }
}

#[test]
fn append_code_and_symbol_decode_back() {
    let mut scope = bson_new();
    assert!(bson_append_int32(&mut scope, "v", -1, 9));
    let mut b = bson_new();
    assert!(bson_append_code(&mut b, "c", -1, "function(){}"));
    assert!(bson_append_code_with_scope(&mut b, "cs", -1, "f()", &scope));
    assert!(bson_append_symbol(&mut b, "sym", -1, "name", -1));
    let doc = decode(bson_get_data(&b));
    match doc.get("c") {
        Some(mongodb::bson::Bson::JavaScriptCode(c)) => assert_eq!(c, "function(){}"),
        other => panic!("expected code, got {:?}", other),
    }
    match doc.get("cs") {
        Some(mongodb::bson::Bson::JavaScriptCodeWithScope(c)) => {
            assert_eq!(c.code, "f()");
            assert_eq!(c.scope.get_i32("v").unwrap(), 9);
        }
        other => panic!("expected code with scope, got {:?}", other),
    }
    match doc.get("sym") {
        Some(mongodb::bson::Bson::Symbol(s)) => assert_eq!(s, "name"),
        other => panic!("expected symbol, got {:?}", other),
    }
}

#[test]
fn append_datetime_keeps_millis() {
    let mut b = bson_new();
    assert!(bson_append_date_time(&mut b, "when", -1, 1_600_000_000_123i64));
    let doc = decode(bson_get_data(&b));
    assert_eq!(
        doc.get_datetime("when").unwrap().timestamp_millis(),
        1_600_000_000_123i64
    );
}

#[test]
fn append_timestamp_keeps_halves() {
    let mut b = bson_new();
    assert!(bson_append_timestamp(&mut b, "ts", -1, 7, 9));
    let doc = decode(bson_get_data(&b));
    assert_eq!(
        doc.get_timestamp("ts").unwrap(),
        mongodb::bson::Timestamp { time: 7, increment: 9 }
    );
}

#[test]
fn append_decimal128_uses_little_endian_halves() {
    let mut b = bson_new();
    let d = bson_decimal128_t { low: 0x0807060504030201, high: 0x100F0E0D0C0B0A09 };
    assert!(bson_append_decimal128(&mut b, "dec", -1, &d));
    let doc = decode(bson_get_data(&b));
    match doc.get("dec") {
        Some(mongodb::bson::Bson::Decimal128(v)) => {
            assert_eq!(
                v.bytes(),
                [1, 2, 3, 4, 5, 6, 7, 8, 9, 10, 11, 12, 13, 14, 15, 16]
            );
        }
        other => panic!("expected decimal128, got {:?}", other),
    }
}

#[test]
fn append_oid_and_regex_and_markers_decode_back() {
    let oid = bson_oid_t { bytes: [0, 1, 2, 3, 4, 5, 6, 7, 8, 9, 10, 11] };
    let mut b = bson_new();
    assert!(bson_append_oid(&mut b, "id", -1, &oid));
    assert!(bson_append_regex(&mut b, "re", -1, "^a.*b$", "i"));
    assert!(bson_append_maxkey(&mut b, "max", -1));
    assert!(bson_append_minkey(&mut b, "min", -1));
    assert!(bson_append_undefined(&mut b, "u", -1));
    let doc = decode(bson_get_data(&b));
    assert_eq!(
        doc.get_object_id("id").unwrap().bytes(),
        [0, 1, 2, 3, 4, 5, 6, 7, 8, 9, 10, 11]
    );
    match doc.get("re") {
        Some(mongodb::bson::Bson::RegularExpression(r)) => {
            assert_eq!(r.pattern, "^a.*b$");
            assert_eq!(r.options, "i");
        }
        other => panic!("expected regex, got {:?}", other),
    }
    assert!(matches!(doc.get("max"), Some(mongodb::bson::Bson::MaxKey)));
    assert!(matches!(doc.get("min"), Some(mongodb::bson::Bson::MinKey)));
    assert!(matches!(doc.get("u"), Some(mongodb::bson::Bson::Undefined)));
}

#[test]
fn append_dbpointer_is_refused() {
    let oid = bson_oid_t { bytes: [0; 12] };
    let mut b = bson_new();
    let before: Vec<u8> = bson_get_data(&b).to_vec();
    assert!(!bson_append_dbpointer(&mut b, "p", -1, "db.coll", &oid));
    assert_eq!(bson_get_data(&b), before.as_slice());
}

#[test]
fn copy_keeps_bytes_and_mode() {
    let mut b = bson_new();
    assert!(bson_append_int32(&mut b, "a", -1, 1));
    let c = bson_copy(&b);
    assert_eq!(bson_get_data(&b), bson_get_data(&c));
}

#[test]
fn to_string_renders_contents() {
    let mut b = bson_new();
    assert!(bson_append_int32(&mut b, "a", -1, 7));
    let s = bson_to_string(&b).expect("well-formed document renders");
    assert!(s.contains("a"));
    assert!(s.contains("7"));
}

#[test]
fn oid_to_string_is_lowercase_hex() {
    let oid = bson_oid_t {
        bytes: [0xde, 0xad, 0xbe, 0xef, 0x00, 0x01, 0x02, 0x03, 0x0a, 0x0b, 0x0c, 0xff],
    };
    let hex = bson_oid_to_string(&oid);
    assert_eq!(hex, b"deadbeef000102030a0b0cff".to_vec());
}

#[test]
fn subtype_values_match_the_legacy_header() {
    assert_eq!(subtype_value(bson_subtype_t::BSON_SUBTYPE_BINARY), 0x00);
    assert_eq!(subtype_value(bson_subtype_t::BSON_SUBTYPE_FUNCTION), 0x01);
    assert_eq!(subtype_value(bson_subtype_t::BSON_SUBTYPE_BINARY_DEPRECATED), 0x02);
    assert_eq!(subtype_value(bson_subtype_t::BSON_SUBTYPE_UUID_DEPRECATED), 0x03);
    assert_eq!(subtype_value(bson_subtype_t::BSON_SUBTYPE_UUID), 0x04);
    assert_eq!(subtype_value(bson_subtype_t::BSON_SUBTYPE_MD5), 0x05);
    assert_eq!(subtype_value(bson_subtype_t::BSON_SUBTYPE_COLUMN), 0x07);
    assert_eq!(subtype_value(bson_subtype_t::BSON_SUBTYPE_USER), 0x80);
}

#[test]
fn frame_prefix_matches_length_after_appends() {
    let mut b = bson_new();
    assert!(bson_append_int32(&mut b, "a", -1, 7));
    assert!(bson_append_utf8(&mut b, "s", -1, "hello", -1));
    assert!(bson_append_bool(&mut b, "t", -1, true));
    let bytes = bson_get_data(&b);
    let le = u32::from_le_bytes([bytes[0], bytes[1], bytes[2], bytes[3]]) as usize;
    assert_eq!(le, bytes.len());
    assert_eq!(bson_len(&b), bytes.len());
    assert_eq!(*bytes.last().unwrap(), 0);
}

#[test]
fn to_string_fails_exactly_on_unparseable_elements() {
    let bytes = [8u8, 0, 0, 0, 0xee, 0x41, 0, 0];
    let mut view = bson_new();
    assert!(bson_init_static(&mut view, &bytes));
    assert!(bson_to_string(&view).is_none());
}
