//! Command assembly: converting a command buffer into the document the
//! backing driver runs, merging an options document over it so option keys
//! win, and interpreting the driver's outcome into the caller's reply and
//! error records.

use vstd::prelude::*;

use mongodb::bson::raw::{RawBson, RawDocumentBuf};

use crate::bson::bson_t;
use crate::error::{bson_error_t, bson_set_error, MONGOC_ERROR_DOMAIN_BSON,
    MONGOC_ERROR_DOMAIN_DRIVER};
use crate::raw_doc::{
    all_keys_ok, all_values_ok, cstring_ok, doc_elems, doc_iterates, pairs_view,
    raw_append_value, raw_doc_new, raw_doc_pairs, value_fits, value_ok, ElemView,
};

verus! {

/// The synthetic numeric code placed in the error record when the backing
/// driver reports a failure.
pub const MONGOC_ERROR_CODE_DRIVER: u32 = 1;

/// The code placed in the error record when a document's element bytes do
/// not parse.
pub const MONGOC_ERROR_CODE_MALFORMED: u32 = 2;

/// The index of the first pair carrying the key, or a negative value when
/// none does.
pub open spec fn find_key(s: Seq<(Seq<char>, ElemView)>, k: Seq<char>) -> int
    decreases s.len(),
{
    if s.len() == 0 {
        -1
    } else if s[0].0 == k {
        0
    } else {
        let r = find_key(s.drop_first(), k);
        if r < 0 {
            -1
        } else {
            r + 1
        }
    }
}

/// One ordered-map insertion: a pair whose key is present replaces the value
/// at the key's first position; a new key goes to the end. This is the
/// discipline the backing driver's document type applies.
pub open spec fn index_insert(
    acc: Seq<(Seq<char>, ElemView)>,
    p: (Seq<char>, ElemView),
) -> Seq<(Seq<char>, ElemView)> {
    let i = find_key(acc, p.0);
    if i >= 0 {
        acc.update(i, p)
    } else {
        acc.push(p)
    }
}

/// Ordered-map insertion of each pair in turn.
pub open spec fn index_merge(
    acc: Seq<(Seq<char>, ElemView)>,
    src: Seq<(Seq<char>, ElemView)>,
) -> Seq<(Seq<char>, ElemView)>
    decreases src.len(),
{
    if src.len() == 0 {
        acc
    } else {
        index_merge(index_insert(acc, src[0]), src.drop_first())
    }
}

/// What running a command with an options document produces: the command's
/// elements as an ordered map, with the options' entries inserted after, so
/// an option key overwrites a command key.
pub open spec fn merged_command(
    cmd: Seq<(Seq<char>, ElemView)>,
    opts: Seq<(Seq<char>, ElemView)>,
) -> Seq<(Seq<char>, ElemView)> {
    index_merge(index_merge(Seq::empty(), cmd), opts)
}

/// The elements an optional options buffer stands for: a missing buffer
/// means an empty document.
pub open spec fn opt_elems(o: Option<&bson_t>) -> Seq<(Seq<char>, ElemView)> {
    match o {
        Some(b) => b@.elems,
        None => Seq::empty(),
    }
}

/// Whether an optional options buffer's top-level element bytes iterate; a
/// missing buffer trivially does.
pub open spec fn opt_iterates(o: Option<&bson_t>) -> bool {
    match o {
        Some(b) => b@.iterates,
        None => true,
    }
}

/// Folding one more pair into a merge is one more insertion.
pub proof fn lemma_index_merge_push(
    acc: Seq<(Seq<char>, ElemView)>,
    src: Seq<(Seq<char>, ElemView)>,
    p: (Seq<char>, ElemView),
)
    ensures
        index_merge(acc, src.push(p)) == index_insert(index_merge(acc, src), p),
    decreases src.len(),
{
    if src.len() == 0 {
        assert(src.push(p).drop_first() =~= Seq::<(Seq<char>, ElemView)>::empty());
        assert(src.push(p)[0] == p);
        assert(index_merge(acc, src.push(p)) == index_merge(
            index_insert(acc, p),
            Seq::empty(),
        ));
        assert(index_merge(index_insert(acc, p), Seq::empty()) == index_insert(acc, p));
        assert(index_merge(acc, src) == acc);
    } else {
        assert(src.push(p)[0] == src[0]);
        assert(src.push(p).drop_first() =~= src.drop_first().push(p));
        lemma_index_merge_push(index_insert(acc, src[0]), src.drop_first(), p);
        assert(index_merge(acc, src.push(p)) == index_merge(
            index_insert(acc, src[0]),
            src.drop_first().push(p),
        ));
        assert(index_merge(acc, src) == index_merge(index_insert(acc, src[0]), src.drop_first()));
    }
}

/// The view of one pair inside a pair sequence's view.
pub proof fn lemma_pairs_view_index(s: Seq<(String, RawBson)>, i: int)
    requires
        0 <= i < s.len(),
    ensures
        pairs_view(s)[i] == (s[i].0@, crate::raw_doc::value_view(s[i].1)),
{
}

/// Removing the front pair removes the front of the view.
pub proof fn lemma_pairs_view_remove_front(s: Seq<(String, RawBson)>)
    requires
        s.len() > 0,
    ensures
        pairs_view(s.remove(0)) =~= pairs_view(s).subrange(1, s.len() as int),
{
    assert forall|j: int| 0 <= j < s.len() - 1 implies pairs_view(s.remove(0))[j] == pairs_view(
        s,
    ).subrange(1, s.len() as int)[j] by {
        lemma_pairs_view_index(s.remove(0), j);
        lemma_pairs_view_index(s, j + 1);
        assert(s.remove(0)[j] == s[j + 1]);
    }
}

/// A key absent from every position up to a match at `i` means the first
/// occurrence is at `i`; absent everywhere means there is none.
pub proof fn lemma_find_key_at(s: Seq<(Seq<char>, ElemView)>, k: Seq<char>, i: int)
    requires
        0 <= i <= s.len(),
        forall|j: int| 0 <= j < i ==> s[j].0 != k,
        i < s.len() ==> s[i].0 == k,
    ensures
        i < s.len() ==> find_key(s, k) == i,
        i == s.len() ==> find_key(s, k) < 0,
    decreases s.len(),
{
    if s.len() == 0 {
    } else if i == 0 {
    } else {
        assert(s[0].0 != k);
        assert(forall|j: int| 0 <= j < i - 1 ==> s.drop_first()[j] == s[j + 1]);
        if i < s.len() {
            assert(s.drop_first()[i - 1] == s[i]);
        }
        lemma_find_key_at(s.drop_first(), k, i - 1);
    }
}

/// Finds the first pair holding the key, scanning from the front.
fn find_key_exec(v: &Vec<(String, RawBson)>, k: &String) -> (r: Option<usize>)
    ensures
        r matches Some(i) ==> i < v@.len() && find_key(pairs_view(v@), k@) == i,
        r is None ==> find_key(pairs_view(v@), k@) < 0,
{
    let mut i: usize = 0;
    while i < v.len()
        invariant
            i <= v@.len(),
            forall|j: int| 0 <= j < i ==> pairs_view(v@)[j].0 != k@,
        decreases v@.len() - i,
    {
        if v[i].0 == *k {
            proof {
                lemma_pairs_view_index(v@, i as int);
                assert(pairs_view(v@)[i as int].0 == k@);
                lemma_find_key_at(pairs_view(v@), k@, i as int);
            }
            return Some(i);
        }
        proof {
            lemma_pairs_view_index(v@, i as int);
            assert(pairs_view(v@)[i as int].0 != k@);
        }
        i = i + 1;
    }
    proof {
        lemma_find_key_at(pairs_view(v@), k@, v@.len() as int);
    }
    None
}

/// Inserts each source pair into the accumulator with ordered-map
/// semantics: present keys have their value replaced in place, new keys go
/// to the end.
fn merge_into(out: &mut Vec<(String, RawBson)>, src: Vec<(String, RawBson)>)
    requires
        forall|i: int| 0 <= i < old(out)@.len() ==> value_fits((#[trigger] old(out)@[i]).1),
        forall|i: int| 0 <= i < src@.len() ==> value_fits((#[trigger] src@[i]).1),
    ensures
        pairs_view(final(out)@) == index_merge(pairs_view(old(out)@), pairs_view(src@)),
        forall|i: int| 0 <= i < final(out)@.len() ==> value_fits((#[trigger] final(out)@[i]).1),
{
    let mut src = src;
    let ghost src0 = pairs_view(src@);
    let ghost mut done: int = 0;
    proof {
        assert(pairs_view(src@) =~= src0.subrange(0, src0.len() as int));
        assert(index_merge(pairs_view(old(out)@), src0.take(0)) == pairs_view(old(out)@));
    }
    while src.len() > 0
        invariant
            0 <= done <= src0.len(),
            src@.len() == src0.len() - done,
            pairs_view(src@) == src0.subrange(done, src0.len() as int),
            pairs_view(out@) == index_merge(pairs_view(old(out)@), src0.take(done)),
            forall|i: int| 0 <= i < out@.len() ==> value_fits((#[trigger] out@[i]).1),
            forall|i: int| 0 <= i < src@.len() ==> value_fits((#[trigger] src@[i]).1),
        decreases src@.len(),
    {
        let ghost pre_src = src@;
        let ghost pre_vec = out@;
        let ghost pre_out = pairs_view(out@);
        let (k, v) = src.remove(0);
        let ghost p = (k@, crate::raw_doc::value_view(v));
        proof {
            assert(value_fits(v));
            assert(forall|i: int|
                0 <= i < src@.len() ==> src@[i] == pre_src[i + 1]);
            lemma_pairs_view_index(pre_src, 0);
            assert(pairs_view(pre_src)[0] == p);
            assert(src0[done] == p);
            lemma_pairs_view_remove_front(pre_src);
            assert(pairs_view(src@) =~= src0.subrange(done + 1, src0.len() as int));
            lemma_index_merge_push(pairs_view(old(out)@), src0.take(done), p);
            assert(src0.take(done + 1) =~= src0.take(done).push(p));
        }
        match find_key_exec(out, &k) {
            Some(j) => {
                out[j] = (k, v);
                proof {
                    assert forall|q: int| 0 <= q < out@.len() implies pairs_view(out@)[q]
                        == pre_out.update(j as int, p)[q] by {
                        lemma_pairs_view_index(out@, q);
                        lemma_pairs_view_index(pre_vec, q);
                    }
                    assert(pairs_view(out@) =~= pre_out.update(j as int, p));
                    assert(index_insert(pre_out, p) == pre_out.update(find_key(pre_out, k@), p));
                }
            },
            None => {
                out.push((k, v));
                proof {
                    assert forall|q: int| 0 <= q < out@.len() implies pairs_view(out@)[q]
                        == pre_out.push(p)[q] by {
                        lemma_pairs_view_index(out@, q);
                        if q < pre_vec.len() {
                            lemma_pairs_view_index(pre_vec, q);
                        }
                    }
                    assert(pairs_view(out@) =~= pre_out.push(p));
                }
            },
        }
        proof {
            done = done + 1;
        }
    }
    proof {
        assert(src0.take(done) =~= src0);
        assert(pairs_view(src@) =~= src0.subrange(done, src0.len() as int));
    }
}

/// One insertion introduces no key that was not in the accumulator or the
/// pair.
pub proof fn lemma_index_insert_keys_ok(
    acc: Seq<(Seq<char>, ElemView)>,
    p: (Seq<char>, ElemView),
)
    requires
        all_keys_ok(acc),
        cstring_ok(p.0),
    ensures
        all_keys_ok(index_insert(acc, p)),
{
    let r = index_insert(acc, p);
    assert forall|i: int| 0 <= i < r.len() implies cstring_ok(#[trigger] r[i].0) by {
        if find_key(acc, p.0) >= 0 {
            lemma_find_key_in_range(acc, p.0);
        }
    }
}

/// The first occurrence, when there is one, lies inside the sequence.
pub proof fn lemma_find_key_in_range(s: Seq<(Seq<char>, ElemView)>, k: Seq<char>)
    ensures
        find_key(s, k) >= 0 ==> 0 <= find_key(s, k) < s.len() && s[find_key(s, k)].0 == k,
    decreases s.len(),
{
    if s.len() == 0 {
    } else if s[0].0 == k {
    } else {
        lemma_find_key_in_range(s.drop_first(), k);
    }
}

/// Merging introduces no key that was not in the accumulator or the source.
pub proof fn lemma_index_merge_keys_ok(
    acc: Seq<(Seq<char>, ElemView)>,
    src: Seq<(Seq<char>, ElemView)>,
)
    requires
        all_keys_ok(acc),
        all_keys_ok(src),
    ensures
        all_keys_ok(index_merge(acc, src)),
    decreases src.len(),
{
    if src.len() == 0 {
    } else {
        lemma_index_insert_keys_ok(acc, src[0]);
        assert(all_keys_ok(src.drop_first())) by {
            assert(forall|i: int|
                0 <= i < src.drop_first().len() ==> src.drop_first()[i] == src[i + 1]);
        }
        lemma_index_merge_keys_ok(index_insert(acc, src[0]), src.drop_first());
    }
}

/// One insertion introduces no value that was not in the accumulator or
/// the pair.
pub proof fn lemma_index_insert_values_ok(
    acc: Seq<(Seq<char>, ElemView)>,
    p: (Seq<char>, ElemView),
)
    requires
        all_values_ok(acc),
        value_ok(p.1),
    ensures
        all_values_ok(index_insert(acc, p)),
{
    let r = index_insert(acc, p);
    assert forall|i: int| 0 <= i < r.len() implies value_ok((#[trigger] r[i]).1) by {
        if find_key(acc, p.0) >= 0 {
            lemma_find_key_in_range(acc, p.0);
        }
    }
}

/// Merging introduces no value that was not in the accumulator or the
/// source.
pub proof fn lemma_index_merge_values_ok(
    acc: Seq<(Seq<char>, ElemView)>,
    src: Seq<(Seq<char>, ElemView)>,
)
    requires
        all_values_ok(acc),
        all_values_ok(src),
    ensures
        all_values_ok(index_merge(acc, src)),
    decreases src.len(),
{
    if src.len() == 0 {
    } else {
        lemma_index_insert_values_ok(acc, src[0]);
        assert(all_values_ok(src.drop_first())) by {
            assert(forall|i: int|
                0 <= i < src.drop_first().len() ==> src.drop_first()[i] == src[i + 1]);
        }
        lemma_index_merge_values_ok(index_insert(acc, src[0]), src.drop_first());
    }
}

/// Builds a raw document holding exactly the given pairs, in order.
pub fn pairs_to_doc(pairs: Vec<(String, RawBson)>) -> (d: RawDocumentBuf)
    requires
        all_keys_ok(pairs_view(pairs@)),
        all_values_ok(pairs_view(pairs@)),
        forall|i: int| 0 <= i < pairs@.len() ==> value_fits((#[trigger] pairs@[i]).1),
    ensures
        doc_elems(d) == pairs_view(pairs@),
{
    let ghost all = pairs_view(pairs@);
    let mut pairs = pairs;
    let ghost mut done: int = 0;
    let mut d = raw_doc_new();
    proof {
        assert(pairs_view(pairs@) =~= all.subrange(0, all.len() as int));
        assert(doc_elems(d) =~= all.take(0));
    }
    while pairs.len() > 0
        invariant
            0 <= done <= all.len(),
            pairs@.len() == all.len() - done,
            pairs_view(pairs@) == all.subrange(done, all.len() as int),
            doc_elems(d) == all.take(done),
            all_keys_ok(all),
            all_values_ok(all),
            forall|i: int| 0 <= i < pairs@.len() ==> value_fits((#[trigger] pairs@[i]).1),
        decreases pairs@.len(),
    {
        let ghost pre = pairs@;
        let (k, v) = pairs.remove(0);
        proof {
            assert(value_fits(v));
            assert(forall|i: int|
                0 <= i < pairs@.len() ==> pairs@[i] == pre[i + 1]);
            lemma_pairs_view_index(pre, 0);
            assert(pairs_view(pre)[0] == all[done]);
            assert(all[done] == (k@, crate::raw_doc::value_view(v)));
            assert(cstring_ok(all[done].0));
            assert(value_ok(all[done].1));
            lemma_pairs_view_remove_front(pre);
            assert(pairs_view(pairs@) =~= all.subrange(done + 1, all.len() as int));
        }
        raw_append_value(&mut d, k.as_str(), &v);
        proof {
            done = done + 1;
            assert(doc_elems(d) =~= all.take(done));
        }
    }
    proof {
        assert(all.take(done) =~= all);
    }
    d
}

/// Converts the command buffer, merges the options document over it so
/// option keys win, and hands back the document to run. Fails, naming the
/// BSON domain, when either buffer's element bytes do not parse.
pub fn build_command_with_opts(
    command: &bson_t,
    opts: Option<&bson_t>,
    error: &mut bson_error_t,
) -> (r: Option<RawDocumentBuf>)
    ensures
        (r is Some) == (command@.iterates && opt_iterates(opts)),
        r matches Some(d) ==> doc_elems(d) == merged_command(command@.elems, opt_elems(opts)),
        r is None ==> final(error).domain == MONGOC_ERROR_DOMAIN_BSON && final(error).wf(),
{
    merge_doc_with_opts(&command.doc, opts, error)
}

/// As `build_command_with_opts`, for a command already held as a raw
/// document.
pub fn merge_doc_with_opts(
    command: &RawDocumentBuf,
    opts: Option<&bson_t>,
    error: &mut bson_error_t,
) -> (r: Option<RawDocumentBuf>)
    ensures
        (r is Some) == (doc_iterates(*command) && opt_iterates(opts)),
        r matches Some(d) ==> doc_elems(d) == merged_command(doc_elems(*command), opt_elems(opts)),
        r is None ==> final(error).domain == MONGOC_ERROR_DOMAIN_BSON && final(error).wf(),
{
    let cmd_pairs = match raw_doc_pairs(command) {
        Some(p) => p,
        None => {
            bson_set_error(
                error,
                MONGOC_ERROR_DOMAIN_BSON,
                MONGOC_ERROR_CODE_MALFORMED,
                "command document bytes do not parse".as_bytes(),
            );
            return None;
        },
    };
    let opt_pairs = match opts {
        Some(o) => match raw_doc_pairs(&o.doc) {
            Some(p) => p,
            None => {
                bson_set_error(
                    error,
                    MONGOC_ERROR_DOMAIN_BSON,
                    MONGOC_ERROR_CODE_MALFORMED,
                    "options document bytes do not parse".as_bytes(),
                );
                return None;
            },
        },
        None => Vec::new(),
    };
    proof {
        assert(pairs_view(opt_pairs@) =~= opt_elems(opts)) by {
            if opts is None {
                assert(pairs_view(Seq::<(String, RawBson)>::empty())
                    =~= Seq::<(Seq<char>, ElemView)>::empty());
            }
        }
    }
    let mut merged: Vec<(String, RawBson)> = Vec::new();
    proof {
        assert(pairs_view(merged@) =~= Seq::<(Seq<char>, ElemView)>::empty());
    }
    merge_into(&mut merged, cmd_pairs);
    merge_into(&mut merged, opt_pairs);
    proof {
        assert(all_keys_ok(Seq::<(Seq<char>, ElemView)>::empty()));
        assert(all_values_ok(Seq::<(Seq<char>, ElemView)>::empty()));
        lemma_index_merge_keys_ok(Seq::empty(), doc_elems(*command));
        lemma_index_merge_keys_ok(index_merge(Seq::empty(), doc_elems(*command)), opt_elems(opts));
        lemma_index_merge_values_ok(Seq::empty(), doc_elems(*command));
        lemma_index_merge_values_ok(
            index_merge(Seq::empty(), doc_elems(*command)),
            opt_elems(opts),
        );
    }
    Some(pairs_to_doc(merged))
}

/// Applies the outcome of a driver command to the caller's records: a reply
/// document is wrapped as an owned buffer and the call reports true; a
/// driver failure fills the error record, leaves the reply alone, and
/// reports false.
pub fn command_reply(
    outcome: Result<RawDocumentBuf, String>,
    reply: &mut bson_t,
    error: &mut bson_error_t,
) -> (ok: bool)
    ensures
        outcome matches Ok(d) ==> ok && final(reply)@.owned && final(reply)@.elems == doc_elems(d)
            && *final(error) == *old(error),
        outcome matches Err(m) ==> !ok && *final(reply) == *old(reply) && final(error).is_error(
            MONGOC_ERROR_DOMAIN_DRIVER,
            MONGOC_ERROR_CODE_DRIVER,
            vstd::utf8::encode_utf8(m@),
        ),
{
    match outcome {
        Ok(d) => {
            *reply = bson_t::from_raw(d);
            true
        },
        Err(m) => {
            bson_set_error(
                error,
                MONGOC_ERROR_DOMAIN_DRIVER,
                MONGOC_ERROR_CODE_DRIVER,
                m.as_str().as_bytes(),
            );
            false
        },
    }
}

/// Whether some pair carries the key.
pub open spec fn has_key(s: Seq<(Seq<char>, ElemView)>, k: Seq<char>) -> bool {
    find_key(s, k) >= 0
}

/// The value at the key's first position.
pub open spec fn lookup(s: Seq<(Seq<char>, ElemView)>, k: Seq<char>) -> ElemView
    recommends
        has_key(s, k),
{
    s[find_key(s, k)].1
}

/// The value of the key's last occurrence.
pub open spec fn last_value(s: Seq<(Seq<char>, ElemView)>, k: Seq<char>) -> ElemView
    recommends
        has_key(s, k),
    decreases s.len(),
{
    if s.len() == 0 {
        ElemView::Null
    } else if has_key(s.drop_first(), k) {
        last_value(s.drop_first(), k)
    } else {
        s[0].1
    }
}

/// The first occurrence of a key depends only on the key sequence.
pub proof fn lemma_find_key_congruent(
    s1: Seq<(Seq<char>, ElemView)>,
    s2: Seq<(Seq<char>, ElemView)>,
    k: Seq<char>,
)
    requires
        s1.len() == s2.len(),
        forall|j: int| 0 <= j < s1.len() ==> (#[trigger] s1[j]).0 == s2[j].0,
    ensures
        find_key(s1, k) == find_key(s2, k),
    decreases s1.len(),
{
    if s1.len() == 0 {
    } else {
        assert(s1[0].0 == s2[0].0);
        assert(forall|j: int|
            0 <= j < s1.len() - 1 ==> (#[trigger] s1.drop_first()[j]) == s1[j + 1]);
        assert(forall|j: int|
            0 <= j < s2.len() - 1 ==> (#[trigger] s2.drop_first()[j]) == s2[j + 1]);
        lemma_find_key_congruent(s1.drop_first(), s2.drop_first(), k);
    }
}

/// Where the first occurrence sits after a push: unchanged for a key already
/// present, at the end for the pushed key, absent otherwise.
pub proof fn lemma_find_key_push(
    s: Seq<(Seq<char>, ElemView)>,
    p: (Seq<char>, ElemView),
    k: Seq<char>,
)
    ensures
        find_key(s.push(p), k) == if has_key(s, k) {
            find_key(s, k)
        } else if p.0 == k {
            s.len() as int
        } else {
            -1
        },
    decreases s.len(),
{
    if s.len() == 0 {
        assert(s.push(p)[0] == p);
        assert(s.push(p).drop_first() =~= Seq::<(Seq<char>, ElemView)>::empty());
        assert(find_key(Seq::<(Seq<char>, ElemView)>::empty(), k) == -1);
    } else {
        assert(s.push(p)[0] == s[0]);
        assert(s.push(p).drop_first() =~= s.drop_first().push(p));
        lemma_find_key_push(s.drop_first(), p, k);
        if s[0].0 == k {
            assert(find_key(s, k) == 0);
            assert(find_key(s.push(p), k) == 0);
        } else {
            let r1 = find_key(s.drop_first().push(p), k);
            assert(find_key(s.push(p), k) == if r1 < 0 {
                -1
            } else {
                r1 + 1
            });
            let r2 = find_key(s.drop_first(), k);
            assert(find_key(s, k) == if r2 < 0 {
                -1
            } else {
                r2 + 1
            });
        }
    }
}

/// What one insertion does to lookups: the inserted key now reads its new
/// value; every other key is untouched.
pub proof fn lemma_index_insert_lookup(
    acc: Seq<(Seq<char>, ElemView)>,
    p: (Seq<char>, ElemView),
    k: Seq<char>,
)
    ensures
        has_key(index_insert(acc, p), p.0),
        lookup(index_insert(acc, p), p.0) == p.1,
        k != p.0 ==> has_key(index_insert(acc, p), k) == has_key(acc, k),
        k != p.0 && has_key(acc, k) ==> lookup(index_insert(acc, p), k) == lookup(acc, k),
{
    lemma_find_key_in_range(acc, p.0);
    lemma_find_key_in_range(acc, k);
    if find_key(acc, p.0) >= 0 {
        let i = find_key(acc, p.0);
        let upd = acc.update(i, p);
        assert(forall|j: int| 0 <= j < acc.len() ==> (#[trigger] upd[j]).0 == acc[j].0) by {
            assert(acc[i].0 == p.0);
        }
        lemma_find_key_congruent(upd, acc, p.0);
        lemma_find_key_congruent(upd, acc, k);
        lemma_find_key_in_range(upd, k);
        if k != p.0 && has_key(acc, k) {
            let j = find_key(acc, k);
            assert(acc[j].0 == k);
            assert(j != i);
            assert(upd[j] == acc[j]);
        }
    } else {
        let pu = acc.push(p);
        lemma_find_key_push(acc, p, p.0);
        lemma_find_key_push(acc, p, k);
        assert(pu[acc.len() as int] == p);
        if k != p.0 && has_key(acc, k) {
            let j = find_key(acc, k);
            assert(acc[j].0 == k);
            assert(pu[j] == acc[j]);
        }
    }
}

/// What a merge does to lookups: a key of the source reads the source's
/// last value; a key only in the accumulator keeps its value; no other key
/// appears.
pub proof fn lemma_index_merge_lookup(
    acc: Seq<(Seq<char>, ElemView)>,
    src: Seq<(Seq<char>, ElemView)>,
    k: Seq<char>,
)
    ensures
        has_key(index_merge(acc, src), k) == (has_key(acc, k) || has_key(src, k)),
        has_key(src, k) ==> lookup(index_merge(acc, src), k) == last_value(src, k),
        !has_key(src, k) && has_key(acc, k) ==> lookup(index_merge(acc, src), k) == lookup(
            acc,
            k,
        ),
    decreases src.len(),
{
    if src.len() == 0 {
    } else {
        let ins = index_insert(acc, src[0]);
        lemma_index_insert_lookup(acc, src[0], k);
        lemma_index_merge_lookup(ins, src.drop_first(), k);
        if has_key(src.drop_first(), k) {
            assert(has_key(src, k));
            assert(last_value(src, k) == last_value(src.drop_first(), k));
        } else if src[0].0 == k {
            assert(has_key(src, k));
            assert(last_value(src, k) == src[0].1);
            assert(has_key(ins, k));
            assert(lookup(ins, k) == src[0].1);
        } else {
            assert(!has_key(src, k));
        }
    }
}

/// The tie-break the merge applies: the merged document carries a key
/// whenever the command or the options do; an options key reads the
/// options' value (its last occurrence), and a key only in the command
/// keeps the command's value. This is why an options entry wins over a
/// command entry of the same key.
pub proof fn lemma_opts_keys_win(
    cmd: Seq<(Seq<char>, ElemView)>,
    opts: Seq<(Seq<char>, ElemView)>,
    k: Seq<char>,
)
    ensures
        has_key(merged_command(cmd, opts), k) == (has_key(cmd, k) || has_key(opts, k)),
        has_key(opts, k) ==> lookup(merged_command(cmd, opts), k) == last_value(opts, k),
        !has_key(opts, k) && has_key(cmd, k) ==> lookup(merged_command(cmd, opts), k)
            == last_value(cmd, k),
{
    let base = Seq::<(Seq<char>, ElemView)>::empty();
    lemma_index_merge_lookup(base, cmd, k);
    lemma_index_merge_lookup(index_merge(base, cmd), opts, k);
}

/// A missing options buffer stands for the empty element sequence, so
/// passing no options merges exactly as passing an empty document does:
/// both leave the command's own entries, normalized as an ordered map.
pub proof fn lemma_null_opts_like_empty(cmd: Seq<(Seq<char>, ElemView)>, empty_doc: Seq<(Seq<char>, ElemView)>)
    requires
        empty_doc.len() == 0,
    ensures
        merged_command(cmd, empty_doc) == merged_command(cmd, opt_elems(None)),
        merged_command(cmd, empty_doc) == index_merge(Seq::empty(), cmd),
{
    assert(empty_doc =~= Seq::<(Seq<char>, ElemView)>::empty());
}

} // verus!
