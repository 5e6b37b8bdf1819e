//! The boundary to the backing BSON library: the raw document buffer that
//! `bson_t` wraps, with names for its framed bytes and its element sequence,
//! and one trusted wrapper per library call the shim makes.

use vstd::prelude::*;
use vstd::utf8::encode_utf8;

use mongodb::bson::raw::{RawArrayBuf, RawBson, RawDocumentBuf, RawJavaScriptCodeWithScope};
use mongodb::bson::{Binary, Decimal128, Regex, Timestamp};

verus! {

#[verifier::external_type_specification]
#[verifier::external_body]
pub struct ExRawDocumentBuf(RawDocumentBuf);

#[verifier::external_type_specification]
#[verifier::external_body]
pub struct ExRawBson(RawBson);

/// The value a single BSON element carries, as the contracts speak of it.
/// A sub-document is its element sequence; an array is its value sequence.
/// A double is recorded only by kind: its payload is floating point, which
/// stays outside the verified library.
pub enum ElemView {
    Int32(i32),
    Int64(i64),
    Bool(bool),
    Utf8(Seq<char>),
    SubDoc(Seq<(Seq<char>, ElemView)>),
    Array(Seq<ElemView>),
    Binary { subtype: u8, bytes: Seq<u8> },
    Code(Seq<char>),
    CodeWithScope { code: Seq<char>, scope: Seq<(Seq<char>, ElemView)> },
    DateTimeMs(i64),
    Decimal128 { low: u64, high: u64 },
    MaxKey,
    MinKey,
    Null,
    Undefined,
    ObjectId(Seq<u8>),
    Regex { pattern: Seq<char>, options: Seq<char> },
    Symbol(Seq<char>),
    Timestamp { time: u32, increment: u32 },
    Double,
}

/// The framed bytes a raw document holds: a four-byte little-endian length,
/// the element bytes, and a trailing zero.
pub uninterp spec fn doc_bytes(d: RawDocumentBuf) -> Seq<u8>;

/// The elements a raw document holds, in order, each a key with a value.
pub uninterp spec fn doc_elems(d: RawDocumentBuf) -> Seq<(Seq<char>, ElemView)>;

/// The value a standalone BSON value holds.
pub uninterp spec fn value_view(v: RawBson) -> ElemView;

/// A string the backing library writes NUL-terminated can carry no
/// interior NUL: the writer refuses one and the append turns the refusal
/// into a panic. Keys are written this way, and so are a regular
/// expression's pattern and options.
pub open spec fn cstring_ok(k: Seq<char>) -> bool {
    !k.contains('\u{0}')
}

/// A standalone value the library can append without panic: a regular
/// expression must carry a NUL-free pattern and options, since both are
/// written as C strings. Every other kind is length-prefixed or fixed.
pub open spec fn value_ok(v: ElemView) -> bool {
    v matches ElemView::Regex { pattern, options } ==> cstring_ok(pattern) && cstring_ok(options)
}

/// Every value of an element sequence is appendable.
pub open spec fn all_values_ok(s: Seq<(Seq<char>, ElemView)>) -> bool {
    forall|i: int| 0 <= i < s.len() ==> value_ok((#[trigger] s[i]).1)
}

/// Whether top-level iteration of the element bytes succeeds. Iteration
/// validates a nested document by its framing only, without reading its
/// elements, so this is weaker than `doc_parses_deep`. A fresh document
/// iterates; an append leaves the property as it was; accepting caller
/// bytes says nothing about it.
pub uninterp spec fn doc_iterates(d: RawDocumentBuf) -> bool;

/// Whether the full recursive conversion of the document succeeds: every
/// element parses, nested documents included. Strictly stronger than
/// `doc_iterates`.
pub uninterp spec fn doc_parses_deep(d: RawDocumentBuf) -> bool;

/// Whether a standalone value converts recursively, nested documents
/// included.
pub uninterp spec fn value_parses_deep(v: RawBson) -> bool;

/// Whether a standalone value stays within the element writer's 32-bit
/// length prefixes: its strings and binaries are shorter than the prefix
/// can say, and any document it embeds carries a consistent frame. Every
/// value read out of an accepted buffer fits.
pub uninterp spec fn value_fits(v: RawBson) -> bool;

/// The human-readable rendering of a deeply parseable raw document.
pub uninterp spec fn doc_rendering(d: RawDocumentBuf) -> Seq<char>;

/// An append may grow the frame only while the four-byte length prefix can
/// hold the result; `payload` bounds the appended bytes and the slack
/// covers the element tag, terminators and length prefixes.
pub open spec fn frame_grows_ok(old_bytes: Seq<u8>, payload: int) -> bool {
    valid_frame(old_bytes) && old_bytes.len() + payload + 64 <= 0x7FFF_FFFF
}

/// Every key of an element sequence is appendable.
pub open spec fn all_keys_ok(s: Seq<(Seq<char>, ElemView)>) -> bool {
    forall|i: int| 0 <= i < s.len() ==> cstring_ok(#[trigger] s[i].0)
}

/// The little-endian 32-bit quantity at the head of a byte sequence.
pub open spec fn le_len(s: Seq<u8>) -> int {
    s[0] + 0x100 * s[1] + 0x10000 * s[2] + 0x1000000 * s[3]
}

/// The framing the backing library checks when it accepts caller bytes:
/// at least five bytes, the head length equal to the byte count, and a
/// trailing zero. Element bytes are not validated at acceptance time.
pub open spec fn valid_frame(s: Seq<u8>) -> bool {
    &&& 5 <= s.len() <= 0x7FFF_FFFF
    &&& le_len(s) == s.len()
    &&& s[s.len() - 1] == 0
}

/// The element sequence a vector of owned key-value pairs stands for.
pub open spec fn pairs_view(s: Seq<(String, RawBson)>) -> Seq<(Seq<char>, ElemView)> {
    s.map_values(|p: (String, RawBson)| (p.0@, value_view(p.1)))
}

/// The values of an element sequence, keys dropped.
pub open spec fn elem_values(s: Seq<(Seq<char>, ElemView)>) -> Seq<ElemView> {
    s.map_values(|p: (Seq<char>, ElemView)| p.1)
}

/// Relies on `RawDocumentBuf::new`: a fresh document holds no elements, and
/// its framed form is the five-byte empty document.
#[verifier::external_body]
pub fn raw_doc_new() -> (d: RawDocumentBuf)
    ensures
        doc_elems(d) == Seq::<(Seq<char>, ElemView)>::empty(),
        doc_bytes(d) == seq![5u8, 0u8, 0u8, 0u8, 0u8],
        doc_iterates(d),
        doc_parses_deep(d),
{
    RawDocumentBuf::new()
}

/// Relies on `RawDocumentBuf::from_bytes`: it checks exactly the framing
/// (length at least five, head length equal to the byte count, trailing
/// zero) and keeps the accepted bytes unchanged.
#[verifier::external_body]
pub fn raw_doc_from_bytes(bytes: &[u8]) -> (r: Option<RawDocumentBuf>)
    requires
        bytes@.len() <= 0x7FFF_FFFF,
    ensures
        (r is Some) == valid_frame(bytes@),
        r matches Some(d) ==> doc_bytes(d) == bytes@,
{
    RawDocumentBuf::from_bytes(bytes.to_vec()).ok()
}

/// Relies on the derived `Clone` of `RawDocumentBuf`, which copies the
/// backing byte vector.
#[verifier::external_body]
pub fn raw_doc_clone(d: &RawDocumentBuf) -> (r: RawDocumentBuf)
    ensures
        doc_bytes(r) == doc_bytes(*d),
        doc_elems(r) == doc_elems(*d),
        doc_iterates(r) == doc_iterates(*d),
        doc_parses_deep(r) == doc_parses_deep(*d),
{
    d.clone()
}

/// Relies on `RawDocument::as_bytes`: it returns the framed bytes as held.
#[verifier::external_body]
pub fn raw_doc_as_bytes(d: &RawDocumentBuf) -> (r: &[u8])
    ensures
        r@ == doc_bytes(*d),
{
    d.as_bytes()
}

/// Relies on `RawDocumentBuf::iter` and `RawBsonRef::to_raw_bson`: iteration
/// yields the held elements in order, and succeeds exactly when the element
/// bytes parse. A parsed key is the bytes before its NUL terminator, so it
/// never holds an interior NUL; a parsed regular expression's pattern and
/// options are read the same way, so they are appendable too.
#[verifier::external_body]
pub fn raw_doc_pairs(d: &RawDocumentBuf) -> (r: Option<Vec<(String, RawBson)>>)
    ensures
        (r is Some) == doc_iterates(*d),
        doc_parses_deep(*d) ==> r is Some,
        r matches Some(v) ==> pairs_view(v@) == doc_elems(*d),
        r matches Some(v) ==> forall|i: int|
            0 <= i < v@.len() ==> value_fits((#[trigger] v@[i]).1),
        r matches Some(v) ==> (doc_parses_deep(*d) ==> forall|i: int|
            0 <= i < v@.len() ==> value_parses_deep((#[trigger] v@[i]).1)),
        r is Some ==> all_keys_ok(doc_elems(*d)) && all_values_ok(doc_elems(*d)),
{
    let mut out: Vec<(String, RawBson)> = Vec::new();
    for item in d.iter() {
        match item {
            Ok((k, v)) => out.push((k.to_string(), v.to_raw_bson())),
            Err(_) => return None,
        }
    }
    Some(out)
}

/// Relies on matching `RawBson::Document`: the document value moves out
/// unchanged; every other kind yields nothing.
#[verifier::external_body]
pub fn raw_bson_into_doc(v: RawBson) -> (r: Option<RawDocumentBuf>)
    ensures
        (r is Some) == (value_view(v) is SubDoc),
        r matches Some(d) ==> value_view(v) == ElemView::SubDoc(doc_elems(d)),
        r matches Some(d) ==> (value_parses_deep(v) ==> doc_parses_deep(d) && doc_iterates(d)),
{
    match v {
        RawBson::Document(d) => Some(d),
        _ => None,
    }
}

/// Relies on `RawDocumentBuf::append_ref` on a borrowed standalone value:
/// the element joins the end of the document. A regular-expression value
/// must be appendable, since its pattern and options are written as C
/// strings.
#[verifier::external_body]
pub fn raw_append_value(d: &mut RawDocumentBuf, key: &str, v: &RawBson)
    requires
        cstring_ok(key@),
        value_ok(value_view(*v)),
        value_fits(*v),
    ensures
        doc_elems(*final(d)) == doc_elems(*old(d)).push((key@, value_view(*v))),
        doc_iterates(*final(d)) == doc_iterates(*old(d)),
{
    d.append_ref(key, v.as_raw_bson_ref());
}

/// Relies on `RawDocumentBuf::append` with an `i32` value.
#[verifier::external_body]
pub fn raw_append_i32(d: &mut RawDocumentBuf, key: &str, val: i32)
    requires
        cstring_ok(key@),
    ensures
        doc_elems(*final(d)) == doc_elems(*old(d)).push((key@, ElemView::Int32(val))),
        doc_iterates(*final(d)) == doc_iterates(*old(d)),
        doc_parses_deep(*final(d)) == doc_parses_deep(*old(d)),
        frame_grows_ok(doc_bytes(*old(d)), encode_utf8(key@).len() as int + 4) ==> valid_frame(
            doc_bytes(*final(d)),
        ),
{
    d.append(key, val);
}

/// Relies on `RawDocumentBuf::append` with an `i64` value.
#[verifier::external_body]
pub fn raw_append_i64(d: &mut RawDocumentBuf, key: &str, val: i64)
    requires
        cstring_ok(key@),
    ensures
        doc_elems(*final(d)) == doc_elems(*old(d)).push((key@, ElemView::Int64(val))),
        doc_iterates(*final(d)) == doc_iterates(*old(d)),
        doc_parses_deep(*final(d)) == doc_parses_deep(*old(d)),
        frame_grows_ok(doc_bytes(*old(d)), encode_utf8(key@).len() as int + 8) ==> valid_frame(
            doc_bytes(*final(d)),
        ),
{
    d.append(key, val);
}

/// Relies on `RawDocumentBuf::append` with a `bool` value.
#[verifier::external_body]
pub fn raw_append_bool(d: &mut RawDocumentBuf, key: &str, val: bool)
    requires
        cstring_ok(key@),
    ensures
        doc_elems(*final(d)) == doc_elems(*old(d)).push((key@, ElemView::Bool(val))),
        doc_iterates(*final(d)) == doc_iterates(*old(d)),
        doc_parses_deep(*final(d)) == doc_parses_deep(*old(d)),
        frame_grows_ok(doc_bytes(*old(d)), encode_utf8(key@).len() as int + 1) ==> valid_frame(
            doc_bytes(*final(d)),
        ),
{
    d.append(key, val);
}

/// Relies on `RawDocumentBuf::append` with a string value. The value is
/// written behind a 32-bit length prefix, which bounds it.
#[verifier::external_body]
pub fn raw_append_str(d: &mut RawDocumentBuf, key: &str, val: &str)
    requires
        cstring_ok(key@),
        encode_utf8(val@).len() < 0x7FFF_FFFF,
    ensures
        doc_elems(*final(d)) == doc_elems(*old(d)).push((key@, ElemView::Utf8(val@))),
        doc_iterates(*final(d)) == doc_iterates(*old(d)),
        doc_parses_deep(*final(d)) == doc_parses_deep(*old(d)),
        frame_grows_ok(doc_bytes(*old(d)), encode_utf8(key@).len() as int + encode_utf8(val@).len() as int + 8) ==> valid_frame(
            doc_bytes(*final(d)),
        ),
{
    d.append(key, val);
}

/// Relies on `RawDocumentBuf::append` with a cloned sub-document value,
/// whose bytes are embedded verbatim: they must carry a consistent frame.
#[verifier::external_body]
pub fn raw_append_doc(d: &mut RawDocumentBuf, key: &str, val: &RawDocumentBuf)
    requires
        cstring_ok(key@),
        valid_frame(doc_bytes(*val)),
    ensures
        doc_elems(*final(d)) == doc_elems(*old(d)).push(
            (key@, ElemView::SubDoc(doc_elems(*val))),
        ),
        doc_iterates(*final(d)) == doc_iterates(*old(d)),
        doc_parses_deep(*final(d)) == (doc_parses_deep(*old(d)) && doc_parses_deep(*val)),
        frame_grows_ok(doc_bytes(*old(d)), encode_utf8(key@).len() as int + doc_bytes(*val).len() as int) ==> valid_frame(
            doc_bytes(*final(d)),
        ),
{
    d.append(key, val.clone());
}

/// Relies on `RawDocumentBuf::append` with an array value collected from the
/// values of another document, in order, its keys dropped.
#[verifier::external_body]
pub fn raw_append_array(d: &mut RawDocumentBuf, key: &str, val: &RawDocumentBuf) -> (ok: bool)
    requires
        cstring_ok(key@),
        valid_frame(doc_bytes(*val)),
        doc_bytes(*val).len() + 16 * doc_elems(*val).len() + 64 < 0x7FFF_FFFF,
    ensures
        ok ==> doc_elems(*final(d)) == doc_elems(*old(d)).push(
            (key@, ElemView::Array(elem_values(doc_elems(*val)))),
        ),
        !ok ==> doc_elems(*final(d)) == doc_elems(*old(d)),
        doc_iterates(*final(d)) == doc_iterates(*old(d)),
        ok ==> doc_parses_deep(*final(d)) == (doc_parses_deep(*old(d)) && doc_parses_deep(
            *val,
        )),
        frame_grows_ok(
            doc_bytes(*old(d)),
            encode_utf8(key@).len() as int + doc_bytes(*val).len() as int + 16 * doc_elems(
                *val,
            ).len() as int + 16,
        ) ==> valid_frame(doc_bytes(*final(d))),
{
    let mut arr = RawArrayBuf::new();
    for item in val.iter() {
        match item {
            Ok((_, v)) => arr.push(v.to_raw_bson()),
            Err(_) => return false,
        }
    }
    d.append(key, arr);
    true
}

/// Relies on `RawDocumentBuf::append` with a `Binary` value; the eight-bit
/// subtype converts through the library's total mapping. The bytes are
/// written behind a 32-bit length prefix, which bounds them.
#[verifier::external_body]
pub fn raw_append_binary(d: &mut RawDocumentBuf, key: &str, subtype: u8, bytes: &[u8])
    requires
        cstring_ok(key@),
        bytes@.len() < 0x7FFF_FFFF,
    ensures
        doc_elems(*final(d)) == doc_elems(*old(d)).push(
            (key@, ElemView::Binary { subtype, bytes: bytes@ }),
        ),
        doc_iterates(*final(d)) == doc_iterates(*old(d)),
        doc_parses_deep(*final(d)) == doc_parses_deep(*old(d)),
        frame_grows_ok(doc_bytes(*old(d)), encode_utf8(key@).len() as int + bytes@.len() as int + 16) ==> valid_frame(
            doc_bytes(*final(d)),
        ),
{
    d.append(key, Binary { subtype: subtype.into(), bytes: bytes.to_vec() });
}

/// Relies on `RawDocumentBuf::append` with a JavaScript-code value.
#[verifier::external_body]
pub fn raw_append_code(d: &mut RawDocumentBuf, key: &str, code: &str)
    requires
        cstring_ok(key@),
        encode_utf8(code@).len() < 0x7FFF_FFFF,
    ensures
        doc_elems(*final(d)) == doc_elems(*old(d)).push((key@, ElemView::Code(code@))),
        doc_iterates(*final(d)) == doc_iterates(*old(d)),
        doc_parses_deep(*final(d)) == doc_parses_deep(*old(d)),
        frame_grows_ok(doc_bytes(*old(d)), encode_utf8(key@).len() as int + encode_utf8(code@).len() as int + 8) ==> valid_frame(
            doc_bytes(*final(d)),
        ),
{
    d.append(key, RawBson::JavaScriptCode(code.to_string()));
}

/// Relies on `RawDocumentBuf::append` with a code-with-scope value whose
/// scope is a cloned document.
#[verifier::external_body]
pub fn raw_append_code_with_scope(
    d: &mut RawDocumentBuf,
    key: &str,
    code: &str,
    scope: &RawDocumentBuf,
)
    requires
        cstring_ok(key@),
        encode_utf8(code@).len() < 0x7FFF_FFFF,
        valid_frame(doc_bytes(*scope)),
    ensures
        doc_elems(*final(d)) == doc_elems(*old(d)).push(
            (key@, ElemView::CodeWithScope { code: code@, scope: doc_elems(*scope) }),
        ),
        doc_iterates(*final(d)) == doc_iterates(*old(d)),
        doc_parses_deep(*final(d)) == (doc_parses_deep(*old(d)) && doc_parses_deep(*scope)),
        frame_grows_ok(doc_bytes(*old(d)), encode_utf8(key@).len() as int + encode_utf8(code@).len() as int + doc_bytes(*scope).len() as int + 16) ==> valid_frame(
            doc_bytes(*final(d)),
        ),
{
    d.append(
        key,
        RawJavaScriptCodeWithScope { code: code.to_string(), scope: scope.clone() },
    );
}

/// Relies on `RawDocumentBuf::append` with a `DateTime` built by
/// `DateTime::from_millis`, which records the given milliseconds.
#[verifier::external_body]
pub fn raw_append_datetime(d: &mut RawDocumentBuf, key: &str, millis: i64)
    requires
        cstring_ok(key@),
    ensures
        doc_elems(*final(d)) == doc_elems(*old(d)).push((key@, ElemView::DateTimeMs(millis))),
        doc_iterates(*final(d)) == doc_iterates(*old(d)),
        doc_parses_deep(*final(d)) == doc_parses_deep(*old(d)),
        frame_grows_ok(doc_bytes(*old(d)), encode_utf8(key@).len() as int + 8) ==> valid_frame(
            doc_bytes(*final(d)),
        ),
{
    d.append(key, mongodb::bson::DateTime::from_millis(millis));
}

/// Relies on `RawDocumentBuf::append` with `DateTime::now`: a datetime
/// element joins the end, but which moment it carries depends on the clock,
/// so the milliseconds are promised only to exist.
#[verifier::external_body]
pub fn raw_append_now(d: &mut RawDocumentBuf, key: &str)
    requires
        cstring_ok(key@),
    ensures
        exists|ms: i64|
            doc_elems(*final(d)) == doc_elems(*old(d)).push((key@, ElemView::DateTimeMs(ms))),
        doc_iterates(*final(d)) == doc_iterates(*old(d)),
        doc_parses_deep(*final(d)) == doc_parses_deep(*old(d)),
        frame_grows_ok(doc_bytes(*old(d)), encode_utf8(key@).len() as int + 8) ==> valid_frame(
            doc_bytes(*final(d)),
        ),
{
    d.append(key, mongodb::bson::DateTime::now());
}

/// Relies on `RawDocumentBuf::append` with a `Decimal128` built by
/// `Decimal128::from_bytes` from the two little-endian 64-bit halves.
#[verifier::external_body]
pub fn raw_append_decimal128(d: &mut RawDocumentBuf, key: &str, low: u64, high: u64)
    requires
        cstring_ok(key@),
    ensures
        doc_elems(*final(d)) == doc_elems(*old(d)).push(
            (key@, ElemView::Decimal128 { low, high }),
        ),
        doc_iterates(*final(d)) == doc_iterates(*old(d)),
        doc_parses_deep(*final(d)) == doc_parses_deep(*old(d)),
        frame_grows_ok(doc_bytes(*old(d)), encode_utf8(key@).len() as int + 16) ==> valid_frame(
            doc_bytes(*final(d)),
        ),
{
    let mut bytes = [0u8; 16];
    bytes[..8].copy_from_slice(&low.to_le_bytes());
    bytes[8..].copy_from_slice(&high.to_le_bytes());
    d.append(key, Decimal128::from_bytes(bytes));
}

/// Relies on `RawDocumentBuf::append` with the max-key marker.
#[verifier::external_body]
pub fn raw_append_maxkey(d: &mut RawDocumentBuf, key: &str)
    requires
        cstring_ok(key@),
    ensures
        doc_elems(*final(d)) == doc_elems(*old(d)).push((key@, ElemView::MaxKey)),
        doc_iterates(*final(d)) == doc_iterates(*old(d)),
        doc_parses_deep(*final(d)) == doc_parses_deep(*old(d)),
        frame_grows_ok(doc_bytes(*old(d)), encode_utf8(key@).len() as int) ==> valid_frame(
            doc_bytes(*final(d)),
        ),
{
    d.append(key, RawBson::MaxKey);
}

/// Relies on `RawDocumentBuf::append` with the min-key marker.
#[verifier::external_body]
pub fn raw_append_minkey(d: &mut RawDocumentBuf, key: &str)
    requires
        cstring_ok(key@),
    ensures
        doc_elems(*final(d)) == doc_elems(*old(d)).push((key@, ElemView::MinKey)),
        doc_iterates(*final(d)) == doc_iterates(*old(d)),
        doc_parses_deep(*final(d)) == doc_parses_deep(*old(d)),
        frame_grows_ok(doc_bytes(*old(d)), encode_utf8(key@).len() as int) ==> valid_frame(
            doc_bytes(*final(d)),
        ),
{
    d.append(key, RawBson::MinKey);
}

/// Relies on `RawDocumentBuf::append` with the null marker.
#[verifier::external_body]
pub fn raw_append_null(d: &mut RawDocumentBuf, key: &str)
    requires
        cstring_ok(key@),
    ensures
        doc_elems(*final(d)) == doc_elems(*old(d)).push((key@, ElemView::Null)),
        doc_iterates(*final(d)) == doc_iterates(*old(d)),
        doc_parses_deep(*final(d)) == doc_parses_deep(*old(d)),
        frame_grows_ok(doc_bytes(*old(d)), encode_utf8(key@).len() as int) ==> valid_frame(
            doc_bytes(*final(d)),
        ),
{
    d.append(key, RawBson::Null);
}

/// Relies on `RawDocumentBuf::append` with the undefined marker.
#[verifier::external_body]
pub fn raw_append_undefined(d: &mut RawDocumentBuf, key: &str)
    requires
        cstring_ok(key@),
    ensures
        doc_elems(*final(d)) == doc_elems(*old(d)).push((key@, ElemView::Undefined)),
        doc_iterates(*final(d)) == doc_iterates(*old(d)),
        doc_parses_deep(*final(d)) == doc_parses_deep(*old(d)),
        frame_grows_ok(doc_bytes(*old(d)), encode_utf8(key@).len() as int) ==> valid_frame(
            doc_bytes(*final(d)),
        ),
{
    d.append(key, RawBson::Undefined);
}

/// Relies on `RawDocumentBuf::append` with an `ObjectId` built by
/// `ObjectId::from_bytes`, which records the twelve bytes as given.
#[verifier::external_body]
pub fn raw_append_oid(d: &mut RawDocumentBuf, key: &str, oid: &[u8; 12])
    requires
        cstring_ok(key@),
    ensures
        doc_elems(*final(d)) == doc_elems(*old(d)).push((key@, ElemView::ObjectId(oid@))),
        doc_iterates(*final(d)) == doc_iterates(*old(d)),
        doc_parses_deep(*final(d)) == doc_parses_deep(*old(d)),
        frame_grows_ok(doc_bytes(*old(d)), encode_utf8(key@).len() as int + 12) ==> valid_frame(
            doc_bytes(*final(d)),
        ),
{
    d.append(key, mongodb::bson::oid::ObjectId::from_bytes(*oid));
}

/// Relies on `RawDocumentBuf::append` with a `Regex` value holding the
/// pattern and option strings as given. Both are written as C strings, so
/// neither can carry an interior NUL.
#[verifier::external_body]
pub fn raw_append_regex(d: &mut RawDocumentBuf, key: &str, pattern: &str, options: &str)
    requires
        cstring_ok(key@),
        cstring_ok(pattern@),
        cstring_ok(options@),
    ensures
        doc_elems(*final(d)) == doc_elems(*old(d)).push(
            (key@, ElemView::Regex { pattern: pattern@, options: options@ }),
        ),
        doc_iterates(*final(d)) == doc_iterates(*old(d)),
        doc_parses_deep(*final(d)) == doc_parses_deep(*old(d)),
        frame_grows_ok(
            doc_bytes(*old(d)),
            encode_utf8(key@).len() as int + encode_utf8(pattern@).len() as int + encode_utf8(
                options@,
            ).len() as int + 8,
        ) ==> valid_frame(doc_bytes(*final(d))),
{
    d.append(key, Regex { pattern: pattern.to_string(), options: options.to_string() });
}

/// Relies on `RawDocumentBuf::append` with a symbol value.
#[verifier::external_body]
pub fn raw_append_symbol(d: &mut RawDocumentBuf, key: &str, val: &str)
    requires
        cstring_ok(key@),
        encode_utf8(val@).len() < 0x7FFF_FFFF,
    ensures
        doc_elems(*final(d)) == doc_elems(*old(d)).push((key@, ElemView::Symbol(val@))),
        doc_iterates(*final(d)) == doc_iterates(*old(d)),
        doc_parses_deep(*final(d)) == doc_parses_deep(*old(d)),
        frame_grows_ok(doc_bytes(*old(d)), encode_utf8(key@).len() as int + encode_utf8(val@).len() as int + 8) ==> valid_frame(
            doc_bytes(*final(d)),
        ),
{
    d.append(key, RawBson::Symbol(val.to_string()));
}

/// Relies on `RawDocumentBuf::append` with a `Timestamp` value holding the
/// time and increment as given.
#[verifier::external_body]
pub fn raw_append_timestamp(d: &mut RawDocumentBuf, key: &str, time: u32, increment: u32)
    requires
        cstring_ok(key@),
    ensures
        doc_elems(*final(d)) == doc_elems(*old(d)).push(
            (key@, ElemView::Timestamp { time, increment }),
        ),
        doc_iterates(*final(d)) == doc_iterates(*old(d)),
        doc_parses_deep(*final(d)) == doc_parses_deep(*old(d)),
        frame_grows_ok(doc_bytes(*old(d)), encode_utf8(key@).len() as int + 8) ==> valid_frame(
            doc_bytes(*final(d)),
        ),
{
    d.append(key, Timestamp { time, increment });
}

/// Relies on `RawDocumentBuf::to_document` and the `Display` rendering of
/// `Document`: the conversion recurses into nested documents and succeeds
/// exactly on deeply parseable ones; the rendering is a function of the
/// document alone. A successful conversion entails top-level iteration.
#[verifier::external_body]
pub fn raw_doc_render(d: &RawDocumentBuf) -> (r: Option<String>)
    ensures
        (r is Some) == doc_parses_deep(*d),
        r is Some ==> doc_iterates(*d),
        r matches Some(s) ==> s@ == doc_rendering(*d),
{
    match d.to_document() {
        Ok(doc) => Some(format!("{}", doc)),
        Err(_) => None,
    }
}

} // verus!
