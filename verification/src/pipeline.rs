//! Aggregation pipeline normalization. A caller may hand the pipeline as a
//! bare stage array (a document whose first key is the index `0`, or an
//! empty one) or wrapped in a document holding a single `pipeline` key whose
//! value is such an array. Any other shape is an argument error; every stage
//! must be a document.

use vstd::prelude::*;

use mongodb::bson::raw::RawDocumentBuf;

use crate::bson::bson_t;
use crate::command::MONGOC_ERROR_CODE_MALFORMED;
use crate::error::{bson_error_t, bson_set_error, MONGOC_ERROR_DOMAIN_ARGUMENT,
    MONGOC_ERROR_DOMAIN_BSON};
use crate::raw_doc::{doc_elems, doc_parses_deep, pairs_view, raw_bson_into_doc, raw_doc_pairs,
    value_parses_deep, ElemView};
use crate::strutil::str_eq;

verus! {

/// The code placed in the error record when the pipeline's shape is
/// rejected.
pub const MONGOC_ERROR_CODE_PIPELINE: u32 = 3;

/// A bare stage array: an empty document, or one whose first key is the
/// index `0`.
pub open spec fn pipeline_array_form(elems: Seq<(Seq<char>, ElemView)>) -> bool {
    elems.len() == 0 || elems[0].0 == "0"@
}

/// Which elements the stages are read from: the document itself when it is
/// a bare array (first key `0`, or empty), the value under a leading
/// `pipeline` key when that value is a document, and nothing otherwise.
pub open spec fn pipeline_selection(
    elems: Seq<(Seq<char>, ElemView)>,
) -> Option<Seq<(Seq<char>, ElemView)>> {
    if elems.len() == 0 {
        Some(elems)
    } else if elems[0].0 == "0"@ {
        Some(elems)
    } else if elems[0].0 == "pipeline"@ && elems[0].1 is SubDoc {
        Some(elems[0].1->SubDoc_0)
    } else {
        None
    }
}

/// Every selected value is a stage document.
pub open spec fn all_stages_docs(sel: Seq<(Seq<char>, ElemView)>) -> bool {
    forall|i: int| 0 <= i < sel.len() ==> (#[trigger] sel[i]).1 is SubDoc
}

/// The stage documents a pipeline document denotes, or nothing when its
/// shape is rejected.
/// The stage element sequences of selected pairs, values only.
pub open spec fn selection_stages(
    sel: Seq<(Seq<char>, ElemView)>,
) -> Seq<Seq<(Seq<char>, ElemView)>> {
    Seq::new(sel.len(), |i: int| sel[i].1->SubDoc_0)
}

pub open spec fn pipeline_stages(
    elems: Seq<(Seq<char>, ElemView)>,
) -> Option<Seq<Seq<(Seq<char>, ElemView)>>> {
    match pipeline_selection(elems) {
        Some(sel) => if all_stages_docs(sel) {
            Some(selection_stages(sel))
        } else {
            None
        },
        None => None,
    }
}

/// The element sequences of a vector of stage documents.
pub open spec fn stage_views(v: Seq<RawDocumentBuf>) -> Seq<Seq<(Seq<char>, ElemView)>> {
    Seq::new(v.len(), |i: int| doc_elems(v[i]))
}

/// Extracts the stage documents from selected pairs; each value must be a
/// document.
#[verifier::loop_isolation(false)]
fn stages_from_pairs(pairs: Vec<(String, mongodb::bson::raw::RawBson)>, error: &mut bson_error_t) -> (r: Option<
    Vec<RawDocumentBuf>,
>)
    ensures
        (r is Some) == all_stages_docs(pairs_view(pairs@)),
        r matches Some(v) ==> stage_views(v@) == selection_stages(pairs_view(pairs@)),
        r is None ==> final(error).domain == MONGOC_ERROR_DOMAIN_ARGUMENT && final(error).wf(),
{
    let ghost all = pairs_view(pairs@);
    let mut rest = pairs;
    let ghost mut done: int = 0;
    let mut out: Vec<RawDocumentBuf> = Vec::new();
    proof {
        assert(pairs_view(rest@) =~= all.subrange(0, all.len() as int));
        assert(stage_views(out@) =~= selection_stages(all.take(0)));
    }
    while rest.len() > 0
        invariant
            0 <= done <= all.len(),
            rest@.len() == all.len() - done,
            pairs_view(rest@) == all.subrange(done, all.len() as int),
            forall|i: int| 0 <= i < done ==> (#[trigger] all[i]).1 is SubDoc,
            stage_views(out@) == selection_stages(all.take(done)),
        decreases rest@.len(),
    {
        let ghost pre = rest@;
        let ghost pre_out = out@;
        let (_k, v) = rest.remove(0);
        let ghost vv = crate::raw_doc::value_view(v);
        proof {
            crate::command::lemma_pairs_view_index(pre, 0);
            assert(all[done] == pairs_view(pre)[0]);
            crate::command::lemma_pairs_view_remove_front(pre);
            assert(pairs_view(rest@) =~= all.subrange(done + 1, all.len() as int));
        }
        match raw_bson_into_doc(v) {
            Some(d) => {
                out.push(d);
                proof {
                    done = done + 1;
                    assert(vv == ElemView::SubDoc(doc_elems(d)));
                    assert(all[done - 1].1 == vv);
                    assert(done <= all.len());
                    assert(stage_views(pre_out).len() == pre_out.len());
                    assert(selection_stages(all.take(done - 1)).len() == done - 1);
                    assert(pre_out.len() == done - 1);
                    assert(out@.len() == done);
                    assert(all.take(done).len() == done);
                    assert forall|q: int| 0 <= q < out@.len() implies stage_views(out@)[q]
                        == selection_stages(all.take(done))[q] by {
                        assert(stage_views(out@)[q] == doc_elems(out@[q]));
                        assert(selection_stages(all.take(done))[q] == all.take(done)[q].1->SubDoc_0);
                        if q < pre_out.len() {
                            assert(stage_views(pre_out)[q] == doc_elems(pre_out[q]));
                            assert(selection_stages(all.take(done - 1))[q] == all.take(
                                done - 1,
                            )[q].1->SubDoc_0);
                        } else {
                            assert(out@[q] == d);
                        }
                    }
                    assert(stage_views(out@) =~= selection_stages(all.take(done)));
                }
            },
            None => {
                bson_set_error(
                    error,
                    MONGOC_ERROR_DOMAIN_ARGUMENT,
                    MONGOC_ERROR_CODE_PIPELINE,
                    "expected a document for each pipeline stage".as_bytes(),
                );
                proof {
                    assert(0 <= done < all.len());
                    assert(!(all[done].1 is SubDoc));
                    assert(!all_stages_docs(all));
                }
                return None;
            },
        }
    }
    proof {
        assert(all.take(done) =~= all);
        assert(all_stages_docs(all));
    }
    Some(out)
}

/// Normalizes a pipeline document into its stage documents. Reports an
/// argument error for a rejected shape or a non-document stage, and a BSON
/// error when element bytes do not parse.
pub fn make_agg_pipeline(pipeline: &bson_t, error: &mut bson_error_t) -> (r: Option<
    Vec<RawDocumentBuf>,
>)
    ensures
        r matches Some(v) ==> pipeline_stages(pipeline@.elems) == Some(stage_views(v@)),
        pipeline_stages(pipeline@.elems) is None ==> r is None,
        pipeline@.iterates && pipeline_array_form(pipeline@.elems) && all_stages_docs(
            pipeline@.elems,
        ) ==> r is Some,
        pipeline@.parses_deep && pipeline_stages(pipeline@.elems) is Some ==> r is Some,
        r is None ==> final(error).wf() && (final(error).domain == MONGOC_ERROR_DOMAIN_ARGUMENT
            || final(error).domain == MONGOC_ERROR_DOMAIN_BSON),
        r is None && final(error).domain == MONGOC_ERROR_DOMAIN_ARGUMENT ==> pipeline_stages(
            pipeline@.elems,
        ) is None,
{
    let pairs = match raw_doc_pairs(&pipeline.doc) {
        Some(p) => p,
        None => {
            bson_set_error(
                error,
                MONGOC_ERROR_DOMAIN_BSON,
                MONGOC_ERROR_CODE_MALFORMED,
                "pipeline document bytes do not parse".as_bytes(),
            );
            return None;
        },
    };
    if pairs.len() == 0 {
        proof {
            assert(pairs_view(pairs@) =~= Seq::<(Seq<char>, ElemView)>::empty());
            assert(pipeline_selection(pipeline@.elems) == Some(pipeline@.elems));
        }
        return stages_from_pairs(pairs, error);
    }
    let first_is_index = str_eq(pairs[0].0.as_str(), "0");
    proof {
        crate::command::lemma_pairs_view_index(pairs@, 0);
    }
    if first_is_index {
        return stages_from_pairs(pairs, error);
    }
    let first_is_wrapper = str_eq(pairs[0].0.as_str(), "pipeline");
    if first_is_wrapper {
        let mut pairs = pairs;
        let (_k, v) = pairs.remove(0);
        proof {
            assert(doc_parses_deep(pipeline.doc) ==> value_parses_deep(v));
        }
        match raw_bson_into_doc(v) {
            Some(inner) => {
                proof {
                    assert(doc_parses_deep(pipeline.doc) ==> crate::raw_doc::doc_iterates(
                        inner,
                    ));
                }
                match raw_doc_pairs(&inner) {
                    Some(inner_pairs) => {
                        proof {
                            assert(pipeline_selection(pipeline@.elems) == Some(
                                doc_elems(inner),
                            ));
                        }
                        return stages_from_pairs(inner_pairs, error);
                    },
                    None => {
                        bson_set_error(
                            error,
                            MONGOC_ERROR_DOMAIN_BSON,
                            MONGOC_ERROR_CODE_MALFORMED,
                            "pipeline array bytes do not parse".as_bytes(),
                        );
                        proof {
                            assert(!doc_parses_deep(pipeline.doc));
                        }
                        return None;
                    },
                }
            },
            None => {
                bson_set_error(
                    error,
                    MONGOC_ERROR_DOMAIN_ARGUMENT,
                    MONGOC_ERROR_CODE_PIPELINE,
                    "pipeline key must hold an array document".as_bytes(),
                );
                return None;
            },
        }
    }
    bson_set_error(
        error,
        MONGOC_ERROR_DOMAIN_ARGUMENT,
        MONGOC_ERROR_CODE_PIPELINE,
        "invalid pipeline document".as_bytes(),
    );
    None
}

/// Both pipeline shapes denote the same stages: a bare stage array and a
/// document wrapping those elements under a single `pipeline` key.
pub proof fn lemma_pipeline_shapes_agree(stages: Seq<(Seq<char>, ElemView)>)
    requires
        stages.len() == 0 || stages[0].0 == "0"@,
    ensures
        pipeline_stages(stages) == pipeline_stages(
            seq![("pipeline"@, ElemView::SubDoc(stages))],
        ),
{
    reveal_strlit("0");
    reveal_strlit("pipeline");
    let wrapped = seq![("pipeline"@, ElemView::SubDoc(stages))];
    assert(wrapped[0].0 == "pipeline"@);
    assert("pipeline"@.len() == 8 && "0"@.len() == 1);
    assert(pipeline_selection(wrapped) == Some(stages));
    assert(pipeline_selection(stages) == Some(stages));
}

} // verus!
