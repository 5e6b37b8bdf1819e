//! The appendable document buffer of the legacy interface: a raw BSON
//! document in one of two modes. An owned buffer accepts typed appends; a
//! borrowed view is read-only, established from caller bytes, and refuses
//! every append.

use vstd::prelude::*;

use mongodb::bson::raw::RawDocumentBuf;

use crate::raw_doc::{
    doc_bytes, doc_elems, doc_iterates, doc_parses_deep, doc_rendering, cstring_ok,
    frame_grows_ok,
    raw_append_array, raw_append_binary, raw_append_bool,
    raw_append_code, raw_append_code_with_scope, raw_append_datetime, raw_append_decimal128,
    raw_append_doc, raw_append_i32, raw_append_i64, raw_append_maxkey, raw_append_minkey,
    raw_append_now, raw_append_null, raw_append_oid, raw_append_regex, raw_append_str,
    raw_append_symbol, raw_append_timestamp, raw_append_undefined, raw_doc_as_bytes,
    raw_doc_clone, raw_doc_from_bytes, raw_doc_new, raw_doc_render, valid_frame, ElemView,
};

verus! {

/// What a `bson_t` holds: its mode, whether its top-level element bytes
/// iterate, whether the whole document converts recursively, its element
/// sequence, and its framed bytes.
pub struct BsonView {
    pub owned: bool,
    pub iterates: bool,
    pub parses_deep: bool,
    pub elems: Seq<(Seq<char>, ElemView)>,
    pub bytes: Seq<u8>,
}

impl BsonView {
    /// The view of a buffer fresh from `bson_new`.
    pub open spec fn fresh() -> BsonView {
        BsonView {
            owned: true,
            iterates: true,
            parses_deep: true,
            elems: Seq::empty(),
            bytes: seq![5u8, 0u8, 0u8, 0u8, 0u8],
        }
    }
}

/// The appendable document buffer. `owned` distinguishes a buffer the caller
/// may append to from a read-only view established over caller bytes.
#[allow(non_camel_case_types)]
pub struct bson_t {
    pub owned: bool,
    pub doc: RawDocumentBuf,
}

impl View for bson_t {
    type V = BsonView;

    open spec fn view(&self) -> BsonView {
        BsonView {
            owned: self.owned,
            iterates: doc_iterates(self.doc),
            parses_deep: doc_parses_deep(self.doc),
            elems: doc_elems(self.doc),
            bytes: doc_bytes(self.doc),
        }
    }
}

impl bson_t {
    /// Wraps an owned raw document, as reply paths do.
    pub fn from_raw(doc: RawDocumentBuf) -> (b: bson_t)
        ensures
            b@.owned,
            b@.iterates == doc_iterates(doc),
            b@.parses_deep == doc_parses_deep(doc),
            b@.elems == doc_elems(doc),
            b@.bytes == doc_bytes(doc),
    {
        bson_t { owned: true, doc }
    }
}

/// A fresh, empty, appendable document.
pub fn bson_new() -> (b: bson_t)
    ensures
        b@ == BsonView::fresh(),
{
    bson_t { owned: true, doc: raw_doc_new() }
}

/// A deep copy, keeping mode, elements and bytes.
pub fn bson_copy(b: &bson_t) -> (r: bson_t)
    ensures
        r@ == b@,
{
    bson_t { owned: b.owned, doc: raw_doc_clone(&b.doc) }
}

/// What `bson_init_static` does to a buffer: success exactly on valid
/// framing, the accepted bytes held unchanged in a read-only view, and the
/// old state kept on failure.
pub open spec fn init_static_post(pre: BsonView, post: BsonView, ok: bool, bytes: Seq<u8>) -> bool {
    &&& ok == valid_frame(bytes)
    &&& (ok ==> post.bytes == bytes && !post.owned)
    &&& (!ok ==> post == pre)
}

/// Re-initializes the buffer as a read-only view over the caller's bytes.
/// Succeeds exactly when the bytes carry valid document framing, and then
/// holds those bytes unchanged; on failure the buffer keeps its old state.
pub fn bson_init_static(bson: &mut bson_t, bytes: &[u8]) -> (ok: bool)
    ensures
        init_static_post(old(bson)@, final(bson)@, ok, bytes@),
{
    if bytes.len() > 0x7FFF_FFFF {
        return false;
    }
    match raw_doc_from_bytes(bytes) {
        Some(d) => {
            bson.doc = d;
            bson.owned = false;
            true
        },
        None => false,
    }
}

/// The framed bytes of the document; they live as long as the handle.
pub fn bson_get_data<'a>(bson: &'a bson_t) -> (r: &'a [u8])
    ensures
        r@ == bson@.bytes,
{
    raw_doc_as_bytes(&bson.doc)
}

/// The length of the framed bytes.
pub fn bson_len(bson: &bson_t) -> (r: usize)
    ensures
        r == bson@.bytes.len(),
{
    raw_doc_as_bytes(&bson.doc).len()
}

/// A human-readable rendering as a heap string owned by the caller.
/// Succeeds exactly when the document converts recursively; the rendering
/// is a function of the document alone.
pub fn bson_to_string(bson: &bson_t) -> (r: Option<String>)
    ensures
        (r is Some) == bson@.parses_deep,
        r matches Some(s) ==> s@ == doc_rendering(bson.doc),
{
    raw_doc_render(&bson.doc)
}

/// Releases the buffer. Ownership is consumed here; the pointer layer frees
/// its allocation around this.
pub fn bson_destroy(bson: bson_t) {
    let _ = bson;
}

/// What every typed append ensures: on an owned buffer the element joins
/// the end and the call reports true; on a borrowed view nothing changes
/// and the call reports false. Top-level iterability is kept as it was;
/// the document converts recursively afterwards exactly when it did before
/// and the appended element does (`sub_deep`, true for every scalar kind);
/// and while the frame can still grow by the element's bytes (bounded by
/// `payload` plus slack) the buffer keeps valid framing, so its length
/// prefix keeps matching its length.
pub open spec fn append_post(
    pre: BsonView,
    post: BsonView,
    ok: bool,
    key: Seq<char>,
    v: ElemView,
    payload: int,
    sub_deep: bool,
) -> bool {
    &&& ok == pre.owned
    &&& post.owned == pre.owned
    &&& post.iterates == pre.iterates
    &&& pre.owned ==> post.parses_deep == (pre.parses_deep && sub_deep)
    &&& pre.owned ==> post.elems == pre.elems.push((key, v))
    &&& (pre.owned && frame_grows_ok(pre.bytes, payload) ==> valid_frame(post.bytes))
    &&& !pre.owned ==> post == pre
}

/// Appends a 32-bit integer element.
pub fn bson_append_int32(bson: &mut bson_t, key: &str, _key_length: isize, val: i32) -> (ok: bool)
    requires
        cstring_ok(key@),
    ensures
        append_post(old(bson)@, final(bson)@, ok, key@, ElemView::Int32(val), vstd::utf8::encode_utf8(key@).len() as int + 4, true),
{
    if !bson.owned {
        return false;
    }
    raw_append_i32(&mut bson.doc, key, val);
    true
}

/// Appends a 64-bit integer element.
pub fn bson_append_int64(bson: &mut bson_t, key: &str, _key_length: isize, val: i64) -> (ok: bool)
    requires
        cstring_ok(key@),
    ensures
        append_post(old(bson)@, final(bson)@, ok, key@, ElemView::Int64(val), vstd::utf8::encode_utf8(key@).len() as int + 8, true),
{
    if !bson.owned {
        return false;
    }
    raw_append_i64(&mut bson.doc, key, val);
    true
}

/// Appends a boolean element.
pub fn bson_append_bool(bson: &mut bson_t, key: &str, _key_length: isize, val: bool) -> (ok: bool)
    requires
        cstring_ok(key@),
    ensures
        append_post(old(bson)@, final(bson)@, ok, key@, ElemView::Bool(val), vstd::utf8::encode_utf8(key@).len() as int + 1, true),
{
    if !bson.owned {
        return false;
    }
    raw_append_bool(&mut bson.doc, key, val);
    true
}

/// Appends a UTF-8 string element.
pub fn bson_append_utf8(
    bson: &mut bson_t,
    key: &str,
    _key_length: isize,
    val: &str,
    _length: isize,
) -> (ok: bool)
    requires
        cstring_ok(key@),
        vstd::utf8::encode_utf8(val@).len() < 0x7FFF_FFFF,

    ensures
        append_post(
            old(bson)@,
            final(bson)@,
            ok,
            key@,
            ElemView::Utf8(val@),
            vstd::utf8::encode_utf8(key@).len() as int + vstd::utf8::encode_utf8(val@).len() as int + 8,
            true,
        ),
{
    if !bson.owned {
        return false;
    }
    raw_append_str(&mut bson.doc, key, val);
    true
}

/// Appends another document as a sub-document element.
pub fn bson_append_document(
    bson: &mut bson_t,
    key: &str,
    _key_length: isize,
    val: &bson_t,
) -> (ok: bool)
    requires
        cstring_ok(key@),
        valid_frame(val@.bytes),

    ensures
        append_post(
            old(bson)@,
            final(bson)@,
            ok,
            key@,
            ElemView::SubDoc(val@.elems),
            vstd::utf8::encode_utf8(key@).len() as int + val@.bytes.len() as int,
            val@.parses_deep,
        ),
{
    if !bson.owned {
        return false;
    }
    raw_append_doc(&mut bson.doc, key, &val.doc);
    true
}

/// Appends an array element materialized from another document: the values
/// are taken in order and the keys dropped. Reports false, leaving the
/// buffer unchanged, when the source's element bytes do not parse.
pub fn bson_append_array(
    bson: &mut bson_t,
    key: &str,
    _key_length: isize,
    val: &bson_t,
) -> (ok: bool)
    requires
        cstring_ok(key@),
        valid_frame(val@.bytes),
        val@.bytes.len() + 16 * val@.elems.len() + 64 < 0x7FFF_FFFF,

    ensures
        final(bson)@.owned == old(bson)@.owned,
        final(bson)@.iterates == old(bson)@.iterates,
        !old(bson)@.owned ==> !ok && final(bson)@ == old(bson)@,
        ok ==> old(bson)@.owned && final(bson)@.elems == old(bson)@.elems.push(
            (key@, ElemView::Array(crate::raw_doc::elem_values(val@.elems))),
        ),
        ok ==> final(bson)@.parses_deep == (old(bson)@.parses_deep && val@.parses_deep),
        !ok ==> final(bson)@.elems == old(bson)@.elems,
        old(bson)@.owned && frame_grows_ok(
            old(bson)@.bytes,
            vstd::utf8::encode_utf8(key@).len() as int + val@.bytes.len() as int + 16
                * val@.elems.len() as int + 16,
        ) ==> valid_frame(final(bson)@.bytes),
{
    if !bson.owned {
        return false;
    }
    raw_append_array(&mut bson.doc, key, &val.doc)
}

/// Appends a binary element with the given eight-bit subtype.
pub fn bson_append_binary(
    bson: &mut bson_t,
    key: &str,
    _key_length: isize,
    subtype: bson_subtype_t,
    val: &[u8],
) -> (ok: bool)
    requires
        cstring_ok(key@),
        val@.len() < 0x7FFF_FFFF,

    ensures
        append_post(
            old(bson)@,
            final(bson)@,
            ok,
            key@,
            ElemView::Binary { subtype: spec_subtype_value(subtype), bytes: val@ },
            vstd::utf8::encode_utf8(key@).len() as int + val@.len() as int + 16,
            true,
        ),
{
    if !bson.owned {
        return false;
    }
    raw_append_binary(&mut bson.doc, key, subtype_value(subtype), val);
    true
}

/// Appends a JavaScript-code element.
pub fn bson_append_code(bson: &mut bson_t, key: &str, _key_length: isize, val: &str) -> (ok: bool)
    requires
        cstring_ok(key@),
        vstd::utf8::encode_utf8(val@).len() < 0x7FFF_FFFF,

    ensures
        append_post(
            old(bson)@,
            final(bson)@,
            ok,
            key@,
            ElemView::Code(val@),
            vstd::utf8::encode_utf8(key@).len() as int + vstd::utf8::encode_utf8(val@).len() as int + 8,
            true,
        ),
{
    if !bson.owned {
        return false;
    }
    raw_append_code(&mut bson.doc, key, val);
    true
}

/// Appends a code-with-scope element whose scope is another document.
pub fn bson_append_code_with_scope(
    bson: &mut bson_t,
    key: &str,
    _key_length: isize,
    code: &str,
    scope: &bson_t,
) -> (ok: bool)
    requires
        cstring_ok(key@),
        vstd::utf8::encode_utf8(code@).len() < 0x7FFF_FFFF,
        valid_frame(scope@.bytes),

    ensures
        append_post(
            old(bson)@,
            final(bson)@,
            ok,
            key@,
            ElemView::CodeWithScope { code: code@, scope: scope@.elems },
            vstd::utf8::encode_utf8(key@).len() as int + vstd::utf8::encode_utf8(code@).len() as int + scope@.bytes.len() as int + 16,
            scope@.parses_deep,
        ),
{
    if !bson.owned {
        return false;
    }
    raw_append_code_with_scope(&mut bson.doc, key, code, &scope.doc);
    true
}

/// Appends a datetime element holding milliseconds since the epoch.
pub fn bson_append_date_time(
    bson: &mut bson_t,
    key: &str,
    _key_length: isize,
    value: i64,
) -> (ok: bool)
    requires
        cstring_ok(key@),
    ensures
        append_post(old(bson)@, final(bson)@, ok, key@, ElemView::DateTimeMs(value), vstd::utf8::encode_utf8(key@).len() as int + 8, true),
{
    if !bson.owned {
        return false;
    }
    raw_append_datetime(&mut bson.doc, key, value);
    true
}

/// Appends a datetime element holding the present moment. Which moment that
/// is depends on the clock, so only the element's kind is promised.
pub fn bson_append_now_utc(bson: &mut bson_t, key: &str, _key_length: isize) -> (ok: bool)
    requires
        cstring_ok(key@),
    ensures
        ok == old(bson)@.owned,
        final(bson)@.owned == old(bson)@.owned,
        final(bson)@.iterates == old(bson)@.iterates,
        final(bson)@.parses_deep == old(bson)@.parses_deep,
        !ok ==> final(bson)@ == old(bson)@,
        ok ==> exists|ms: i64|
            final(bson)@.elems == old(bson)@.elems.push((key@, ElemView::DateTimeMs(ms))),
        old(bson)@.owned && frame_grows_ok(
            old(bson)@.bytes,
            vstd::utf8::encode_utf8(key@).len() as int + 8,
        ) ==> valid_frame(final(bson)@.bytes),
{
    if !bson.owned {
        return false;
    }
    raw_append_now(&mut bson.doc, key);
    proof {
        let ms = choose|ms: i64|
            doc_elems(bson.doc) == old(bson)@.elems.push((key@, ElemView::DateTimeMs(ms)));
        assert(bson@.elems == old(bson)@.elems.push((key@, ElemView::DateTimeMs(ms))));
    }
    true
}

/// Refused: the backing BSON library offers no public way to build a
/// DB-pointer value, so this deprecated element kind cannot be appended.
/// The buffer is left unchanged.
pub fn bson_append_dbpointer(
    bson: &mut bson_t,
    key: &str,
    _key_length: isize,
    _collection: &str,
    _oid: &bson_oid_t,
) -> (ok: bool)
    ensures
        !ok,
        final(bson)@ == old(bson)@,
{
    false
}

/// Appends a 128-bit decimal element from its two little-endian 64-bit
/// halves.
pub fn bson_append_decimal128(
    bson: &mut bson_t,
    key: &str,
    _key_length: isize,
    val: &bson_decimal128_t,
) -> (ok: bool)
    requires
        cstring_ok(key@),
    ensures
        append_post(
            old(bson)@,
            final(bson)@,
            ok,
            key@,
            ElemView::Decimal128 { low: val.low, high: val.high },
            vstd::utf8::encode_utf8(key@).len() as int + 16,
            true,
        ),
{
    if !bson.owned {
        return false;
    }
    raw_append_decimal128(&mut bson.doc, key, val.low, val.high);
    true
}

/// Appends a max-key element.
pub fn bson_append_maxkey(bson: &mut bson_t, key: &str, _key_length: isize) -> (ok: bool)
    requires
        cstring_ok(key@),
    ensures
        append_post(old(bson)@, final(bson)@, ok, key@, ElemView::MaxKey, vstd::utf8::encode_utf8(key@).len() as int, true),
{
    if !bson.owned {
        return false;
    }
    raw_append_maxkey(&mut bson.doc, key);
    true
}

/// Appends a min-key element.
pub fn bson_append_minkey(bson: &mut bson_t, key: &str, _key_length: isize) -> (ok: bool)
    requires
        cstring_ok(key@),
    ensures
        append_post(old(bson)@, final(bson)@, ok, key@, ElemView::MinKey, vstd::utf8::encode_utf8(key@).len() as int, true),
{
    if !bson.owned {
        return false;
    }
    raw_append_minkey(&mut bson.doc, key);
    true
}

/// Appends a null element.
pub fn bson_append_null(bson: &mut bson_t, key: &str, _key_length: isize) -> (ok: bool)
    requires
        cstring_ok(key@),
    ensures
        append_post(old(bson)@, final(bson)@, ok, key@, ElemView::Null, vstd::utf8::encode_utf8(key@).len() as int, true),
{
    if !bson.owned {
        return false;
    }
    raw_append_null(&mut bson.doc, key);
    true
}

/// Appends an undefined element.
pub fn bson_append_undefined(bson: &mut bson_t, key: &str, _key_length: isize) -> (ok: bool)
    requires
        cstring_ok(key@),
    ensures
        append_post(old(bson)@, final(bson)@, ok, key@, ElemView::Undefined, vstd::utf8::encode_utf8(key@).len() as int, true),
{
    if !bson.owned {
        return false;
    }
    raw_append_undefined(&mut bson.doc, key);
    true
}

/// Appends an object-id element from its twelve bytes.
pub fn bson_append_oid(
    bson: &mut bson_t,
    key: &str,
    _key_length: isize,
    oid: &bson_oid_t,
) -> (ok: bool)
    requires
        cstring_ok(key@),
    ensures
        append_post(old(bson)@, final(bson)@, ok, key@, ElemView::ObjectId(oid.bytes@), vstd::utf8::encode_utf8(key@).len() as int + 12, true),
{
    if !bson.owned {
        return false;
    }
    raw_append_oid(&mut bson.doc, key, &oid.bytes);
    true
}

/// Appends a regular-expression element.
pub fn bson_append_regex(
    bson: &mut bson_t,
    key: &str,
    _key_length: isize,
    regex: &str,
    options: &str,
) -> (ok: bool)
    requires
        cstring_ok(key@),
        cstring_ok(regex@),
        cstring_ok(options@),
    ensures
        append_post(
            old(bson)@,
            final(bson)@,
            ok,
            key@,
            ElemView::Regex { pattern: regex@, options: options@ },
            vstd::utf8::encode_utf8(key@).len() as int + vstd::utf8::encode_utf8(regex@).len() as int + vstd::utf8::encode_utf8(
                options@,
            ).len() as int + 8,
            true,
        ),
{
    if !bson.owned {
        return false;
    }
    raw_append_regex(&mut bson.doc, key, regex, options);
    true
}

/// Appends a symbol element.
pub fn bson_append_symbol(
    bson: &mut bson_t,
    key: &str,
    _key_length: isize,
    value: &str,
    _length: isize,
) -> (ok: bool)
    requires
        cstring_ok(key@),
        vstd::utf8::encode_utf8(value@).len() < 0x7FFF_FFFF,

    ensures
        append_post(
            old(bson)@,
            final(bson)@,
            ok,
            key@,
            ElemView::Symbol(value@),
            vstd::utf8::encode_utf8(key@).len() as int + vstd::utf8::encode_utf8(value@).len() as int + 8,
            true,
        ),
{
    if !bson.owned {
        return false;
    }
    raw_append_symbol(&mut bson.doc, key, value);
    true
}

/// Appends a timestamp element from its time and increment halves.
pub fn bson_append_timestamp(
    bson: &mut bson_t,
    key: &str,
    _key_length: isize,
    time: u32,
    increment: u32,
) -> (ok: bool)
    requires
        cstring_ok(key@),
    ensures
        append_post(
            old(bson)@,
            final(bson)@,
            ok,
            key@,
            ElemView::Timestamp { time, increment },
            vstd::utf8::encode_utf8(key@).len() as int + 8,
            true,
        ),
{
    if !bson.owned {
        return false;
    }
    raw_append_timestamp(&mut bson.doc, key, time, increment);
    true
}

/// Initializing a view over any well-formed byte sequence succeeds, and the
/// data read back from the buffer afterwards is that sequence exactly:
/// `bson_get_data` reports precisely the `bytes` field of the view this
/// transition fixes.
pub proof fn lemma_init_static_round_trip(pre: BsonView, post: BsonView, ok: bool, s: Seq<u8>)
    requires
        init_static_post(pre, post, ok, s),
        valid_frame(s),
    ensures
        ok,
        post.bytes == s,
{
}

/// One typed append on a fresh buffer yields exactly one element, carrying
/// the given key and value.
pub proof fn lemma_fresh_append_single(
    pre: BsonView,
    post: BsonView,
    k: Seq<char>,
    v: ElemView,
    payload: int,
    sub_deep: bool,
)
    requires
        pre == BsonView::fresh(),
        append_post(pre, post, true, k, v, payload, sub_deep),
    ensures
        post.elems =~= seq![(k, v)],
{
}

/// A buffer holding a valid frame reports bytes whose four-byte
/// little-endian length prefix equals their count, and holds at least the
/// empty document's five bytes; `bson_len` and `bson_get_data` therefore
/// agree with the prefix.
pub proof fn lemma_frame_prefix(b: BsonView)
    requires
        valid_frame(b.bytes),
    ensures
        crate::raw_doc::le_len(b.bytes) == b.bytes.len(),
        b.bytes.len() >= 5,
{
}

/// A fresh buffer's five bytes are a valid frame.
pub proof fn lemma_fresh_frame()
    ensures
        valid_frame(BsonView::fresh().bytes),
{
    let b = BsonView::fresh().bytes;
    assert(b.len() == 5);
    assert(crate::raw_doc::le_len(b) == 5);
    assert(b[4] == 0);
}

/// The eight-bit subtype tag of a binary element.
#[allow(non_camel_case_types)]
#[derive(Clone, Copy, PartialEq, Eq, Structural)]
pub enum bson_subtype_t {
    BSON_SUBTYPE_BINARY,
    BSON_SUBTYPE_FUNCTION,
    BSON_SUBTYPE_BINARY_DEPRECATED,
    BSON_SUBTYPE_UUID_DEPRECATED,
    BSON_SUBTYPE_UUID,
    BSON_SUBTYPE_MD5,
    BSON_SUBTYPE_COLUMN,
    BSON_SUBTYPE_USER,
}

pub open spec fn spec_subtype_value(s: bson_subtype_t) -> u8 {
    match s {
        bson_subtype_t::BSON_SUBTYPE_BINARY => 0x00,
        bson_subtype_t::BSON_SUBTYPE_FUNCTION => 0x01,
        bson_subtype_t::BSON_SUBTYPE_BINARY_DEPRECATED => 0x02,
        bson_subtype_t::BSON_SUBTYPE_UUID_DEPRECATED => 0x03,
        bson_subtype_t::BSON_SUBTYPE_UUID => 0x04,
        bson_subtype_t::BSON_SUBTYPE_MD5 => 0x05,
        bson_subtype_t::BSON_SUBTYPE_COLUMN => 0x07,
        bson_subtype_t::BSON_SUBTYPE_USER => 0x80,
    }
}

/// The byte value each subtype has at the C ABI.
pub fn subtype_value(s: bson_subtype_t) -> (v: u8)
    ensures
        v == spec_subtype_value(s),
{
    match s {
        bson_subtype_t::BSON_SUBTYPE_BINARY => 0x00,
        bson_subtype_t::BSON_SUBTYPE_FUNCTION => 0x01,
        bson_subtype_t::BSON_SUBTYPE_BINARY_DEPRECATED => 0x02,
        bson_subtype_t::BSON_SUBTYPE_UUID_DEPRECATED => 0x03,
        bson_subtype_t::BSON_SUBTYPE_UUID => 0x04,
        bson_subtype_t::BSON_SUBTYPE_MD5 => 0x05,
        bson_subtype_t::BSON_SUBTYPE_COLUMN => 0x07,
        bson_subtype_t::BSON_SUBTYPE_USER => 0x80,
    }
}

/// A twelve-byte object id, laid out as at the C ABI.
#[allow(non_camel_case_types)]
pub struct bson_oid_t {
    pub bytes: [u8; 12],
}

/// The lowercase hex digit of a value below sixteen, as an ASCII byte.
pub open spec fn hex_digit(n: u8) -> u8
    recommends
        n < 16,
{
    if n < 10 {
        (n + 48) as u8
    } else {
        (n + 87) as u8
    }
}

/// The 24 ASCII bytes of the lowercase hex rendering of an object id. The
/// pointer layer adds the trailing NUL of the legacy 25-byte buffer.
pub fn bson_oid_to_string(oid: &bson_oid_t) -> (r: Vec<u8>)
    ensures
        r@.len() == 24,
        forall|i: int|
            0 <= i < 12 ==> r@[2 * i] == hex_digit((oid.bytes@[i] >> 4) as u8) && r@[2 * i + 1]
                == hex_digit((oid.bytes@[i] & 0x0f) as u8),
{
    let mut out: Vec<u8> = Vec::new();
    let mut i: usize = 0;
    while i < 12
        invariant
            i <= 12,
            out@.len() == 2 * i,
            forall|j: int|
                0 <= j < i ==> out@[2 * j] == hex_digit((oid.bytes@[j] >> 4) as u8) && out@[2 * j
                    + 1] == hex_digit((oid.bytes@[j] & 0x0f) as u8),
        decreases 12 - i,
    {
        let b = oid.bytes[i];
        assert((b >> 4) < 16 && (b & 0x0f) < 16) by (bit_vector);
        let hi = b >> 4;
        let lo = b & 0x0f;
        out.push(if hi < 10 { hi + 48 } else { hi + 87 });
        out.push(if lo < 10 { lo + 48 } else { lo + 87 });
        i = i + 1;
    }
    out
}

/// A 128-bit decimal as its two little-endian 64-bit halves, laid out as at
/// the C ABI.
#[allow(non_camel_case_types)]
pub struct bson_decimal128_t {
    pub low: u64,
    pub high: u64,
}

} // verus!
