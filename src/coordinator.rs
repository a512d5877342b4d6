//! Validation of requests and assembly of responses from model output.
//!
//! A request is checked before the model is touched. The model is then asked
//! once per text, with that text as its only input; what it returns for one
//! text is joined by single spaces into that text's summary.

use vstd::prelude::*;
use crate::error::InferError;
use crate::params::DecodingParams;

verus! {

/// The character sequences held by a vector of strings.
pub open spec fn texts_view(v: Seq<String>) -> Seq<Seq<char>> {
    v.map_values(|s: String| s@)
}

/// What the model returned for one call, as character sequences; `None`
/// when the model failed.
pub open spec fn outcome_view(o: Option<Vec<String>>) -> Option<Seq<Seq<char>>> {
    match o {
        Some(v) => Some(texts_view(v@)),
        None => None,
    }
}

/// The pieces joined with one space between neighbours.
pub open spec fn joined(parts: Seq<Seq<char>>) -> Seq<char>
    decreases parts.len(),
{
    if parts.len() == 0 {
        Seq::empty()
    } else if parts.len() == 1 {
        parts[0]
    } else {
        joined(parts.drop_last()) + seq![' '] + parts.last()
    }
}

/// The verdict on a single request's parameters.
pub open spec fn single_check(params: DecodingParams) -> Result<(), InferError> {
    if params.valid() {
        Ok(())
    } else {
        Err(InferError::InvalidParams)
    }
}

/// The verdict on a batch request: valid parameters and at least one text.
pub open spec fn batch_check(n: nat, params: DecodingParams) -> Result<(), InferError> {
    if params.valid() && n > 0 {
        Ok(())
    } else {
        Err(InferError::InvalidParams)
    }
}

/// The summary that one model call yields.
pub open spec fn single_finish(o: Option<Seq<Seq<char>>>) -> Result<Seq<char>, InferError> {
    match o {
        Some(parts) => Ok(joined(parts)),
        None => Err(InferError::InferenceFailure),
    }
}

/// Every one of the calls succeeded.
pub open spec fn all_succeeded(outs: Seq<Option<Seq<Seq<char>>>>) -> bool {
    forall|i: int| 0 <= i < outs.len() ==> (#[trigger] outs[i]) is Some
}

/// The answer to a batch of `n` texts from the calls made for them, in
/// order: all summaries, or a failure of the whole batch.
pub open spec fn batch_finish(n: nat, outs: Seq<Option<Seq<Seq<char>>>>) -> Result<Seq<Seq<char>>, InferError> {
    if outs.len() == n && all_succeeded(outs) {
        Ok(Seq::new(n, |i: int| joined(outs[i]->Some_0)))
    } else {
        Err(InferError::InferenceFailure)
    }
}

/// The answer to a single request: its parameters are checked first, then
/// the model must be at hand, then the model call decides.
pub open spec fn single_response(params: DecodingParams, model_ready: bool, o: Option<Seq<Seq<char>>>) -> Result<Seq<char>, InferError> {
    match single_check(params) {
        Err(e) => Err(e),
        Ok(_) => if model_ready {
            single_finish(o)
        } else {
            Err(InferError::ModelUnavailable)
        },
    }
}

/// Asking twice with the same parameters, while the model's availability
/// stays the same, fails alike: both succeed, or both fail with the same
/// error, whatever summaries the model returns each time.
pub proof fn lemma_repeat_fails_alike(
    params: DecodingParams,
    model_ready: bool,
    first: Option<Seq<Seq<char>>>,
    second: Option<Seq<Seq<char>>>,
)
    requires
        first is Some <==> second is Some,
    ensures
        single_response(params, model_ready, first) is Ok <==> single_response(params, model_ready, second) is Ok,
        single_response(params, model_ready, first) is Err ==> single_response(params, model_ready, first)
            == single_response(params, model_ready, second),
{
}

/// A batch keeps its order: when it succeeds, it holds one summary per
/// text, and the summary at `i` is what a single request would have
/// answered from the call made for text `i`.
pub proof fn lemma_batch_order(n: nat, outs: Seq<Option<Seq<Seq<char>>>>)
    requires
        batch_finish(n, outs) is Ok,
    ensures
        batch_finish(n, outs)->Ok_0.len() == n,
        outs.len() == n,
        forall|i: int| 0 <= i < n ==> single_finish(#[trigger] outs[i]) == Ok::<Seq<char>, InferError>(batch_finish(n, outs)->Ok_0[i]),
{
    assert forall|i: int| 0 <= i < n implies single_finish(#[trigger] outs[i]) == Ok::<Seq<char>, InferError>(batch_finish(n, outs)->Ok_0[i]) by {
        assert(outs[i] is Some);
    }
}

/// Accepts a single request's parameters or rejects them before any model work.
pub fn check_single(params: &DecodingParams) -> (r: Result<(), InferError>)
    ensures
        r == single_check(*params),
{
    if params.is_valid() {
        Ok(())
    } else {
        Err(InferError::InvalidParams)
    }
}

/// Accepts a batch request or rejects it before any model work: its
/// parameters must be valid and it must hold at least one text.
pub fn check_batch(texts: &Vec<String>, params: &DecodingParams) -> (r: Result<(), InferError>)
    ensures
        r == batch_check(texts@.len(), *params),
{
    if params.is_valid() && texts.len() > 0 {
        Ok(())
    } else {
        Err(InferError::InvalidParams)
    }
}

/// Joins what the model returned for one text into that text's summary.
pub fn join_summary(parts: &Vec<String>) -> (r: String)
    ensures
        r@ == joined(texts_view(parts@)),
{
    let mut r = String::new();
    let mut i: usize = 0;
    while i < parts.len()
        invariant
            0 <= i <= parts@.len(),
            r@ == joined(texts_view(parts@.subrange(0, i as int))),
        decreases parts@.len() - i,
    {
        let ghost before = texts_view(parts@.subrange(0, i as int));
        let ghost after = texts_view(parts@.subrange(0, i as int + 1));
        assert(after.drop_last() =~= before);
        assert(after.last() == parts@[i as int]@);
        if i > 0 {
            proof {
                reveal_strlit(" ");
            }
            r.append(" ");
            r.append(parts[i].as_str());
            assert(r@ =~= joined(before) + seq![' '] + after.last());
        } else {
            r.append(parts[i].as_str());
            assert(r@ =~= after.last());
        }
        i = i + 1;
    }
    assert(parts@.subrange(0, parts@.len() as int) =~= parts@);
    r
}

/// The response to a single request whose model call returned `outcome`.
pub fn finish_single(outcome: Option<Vec<String>>) -> (r: Result<String, InferError>)
    ensures
        match (r, single_finish(outcome_view(outcome))) {
            (Ok(s), Ok(t)) => s@ == t,
            (Err(e), Err(f)) => e == f,
            _ => false,
        },
{
    match outcome {
        Some(parts) => Ok(join_summary(&parts)),
        None => Err(InferError::InferenceFailure),
    }
}

/// The response to a batch of `n` texts, from the outcomes of the calls
/// made for its texts in order. The batch succeeds only as a whole: a
/// failed call, or a count that differs from `n`, fails all of it.
pub fn finish_batch(n: usize, outcomes: Vec<Option<Vec<String>>>) -> (r: Result<Vec<String>, InferError>)
    ensures
        match (r, batch_finish(n as nat, outcomes@.map_values(|o: Option<Vec<String>>| outcome_view(o)))) {
            (Ok(v), Ok(w)) => texts_view(v@) == w,
            (Err(e), Err(f)) => e == f,
            _ => false,
        },
{
    let ghost outs = outcomes@.map_values(|o: Option<Vec<String>>| outcome_view(o));
    if outcomes.len() != n {
        return Err(InferError::InferenceFailure);
    }
    let mut result: Vec<String> = Vec::new();
    let mut i: usize = 0;
    while i < outcomes.len()
        invariant
            0 <= i <= outcomes@.len(),
            outcomes@.len() == n,
            outs == outcomes@.map_values(|o: Option<Vec<String>>| outcome_view(o)),
            result@.len() == i,
            forall|j: int| 0 <= j < i ==> (#[trigger] outs[j]) is Some,
            forall|j: int| 0 <= j < i ==> (#[trigger] result@[j])@ == joined(outs[j]->Some_0),
        decreases outcomes@.len() - i,
    {
        match &outcomes[i] {
            Some(parts) => {
                let s = join_summary(parts);
                result.push(s);
            },
            None => {
                assert(outs[i as int] is None);
                return Err(InferError::InferenceFailure);
            },
        }
        i = i + 1;
    }
    assert(all_succeeded(outs));
    assert(texts_view(result@) =~= Seq::new(n as nat, |j: int| joined(outs[j]->Some_0)));
    Ok(result)
}

} // verus!
