//! What a model handle keeps and decides around the engine's model.
//!
//! The engine's model lives in native memory and is the application's to
//! hold and to release.  What the handle keeps beside it, how it answers a
//! request for the parameters, how large the buffers are that the engine
//! fills, and how the engine's status numbers read, is decided here.

use vstd::prelude::*;
use crate::foreign::CSvmParameter;
use crate::param::{param_from_crep, set_in_model, SvmParameter};
use crate::prob::SvmProblem;
use crate::vecs::optional_view;

verus! {

/// What a model handle keeps beside the engine's model.
///
/// A model trained in this process keeps the parameter set, frozen, and the
/// training set it came from: the engine's model may go on reading both.  A
/// model read from persisted state keeps neither.
#[derive(Debug)]
pub struct SvmModel {
    param: Option<SvmParameter>,
    prob: Option<SvmProblem>,
}

impl SvmModel {
    /// The parameter set the model was trained with, if it was trained here.
    pub closed spec fn param(&self) -> Option<SvmParameter> {
        self.param
    }

    /// The training set the model was trained on, if it was trained here.
    pub closed spec fn prob(&self) -> Option<SvmProblem> {
        self.prob
    }

    /// What the handle of a model read from persisted state keeps: nothing.
    pub fn loaded() -> (m: SvmModel)
        ensures
            m.param() is None,
            m.prob() is None,
    {
        SvmModel { param: None, prob: None }
    }

    /// The parameter set that is kept, if one is.
    pub fn params(&self) -> (r: Option<&SvmParameter>)
        ensures
            r matches Some(p) ==> self.param() == Some(*p),
            r is None ==> self.param() is None,
    {
        self.param.as_ref()
    }

    /// The training set that is kept, if one is.
    pub fn problem(&self) -> (r: Option<&SvmProblem>)
        ensures
            r matches Some(p) ==> self.prob() == Some(*p),
            r is None ==> self.prob() is None,
    {
        self.prob.as_ref()
    }

    /// Whether the handle keeps the parameter set of its training run.
    pub fn keeps_params(&self) -> (r: bool)
        ensures
            r == self.param() is Some,
    {
        self.param.is_some()
    }

    /// The parameters the model was made with, free to change and to train
    /// with again.
    ///
    /// A model trained here answers with a copy of its own parameter set,
    /// arrays included.  A model read from persisted state answers with what
    /// `engine_param`, the parameter record inside the engine's model,
    /// describes.
    pub fn view_params(&self, engine_param: &CSvmParameter) -> (r: SvmParameter)
        ensures
            !r.is_frozen(),
            self.param() matches Some(kept) ==> r.same_settings(&kept) && r.same_arrays(&kept),
            self.param() is None ==> r.is_read_from(engine_param@),
    {
        match &self.param {
            None => param_from_crep(engine_param),
            Some(param) => {
                let mut p = param.clone();
                set_in_model(&mut p, false);
                p
            },
        }
    }
}

/// What the handle of a freshly trained model keeps: the training set, and
/// the parameter set, frozen from here on.
pub fn model_from_c_rep(prob: SvmProblem, param: SvmParameter) -> (m: SvmModel)
    ensures
        m.prob() == Some(prob),
        m.param() matches Some(kept) && kept.is_frozen() && kept.same_settings(&param)
            && kept.same_arrays(&param),
{
    let mut param = param;
    set_in_model(&mut param, true);
    SvmModel { param: Some(param), prob: Some(prob) }
}

/// How many entries the engine writes for a count it reports: that many,
/// none where the count is not positive.
pub open spec fn slots(count: int) -> nat {
    if count > 0 {
        count as nat
    } else {
        0
    }
}

/// How many decision values the engine writes for a model of `nr_class`
/// classes: one for each pair of classes.  A regression model counts as one
/// of two classes and so has one.
pub open spec fn decision_value_count(nr_class: int) -> nat {
    (nr_class * (nr_class - 1) / 2) as nat
}

/// The buffer that goes to the engine for `needed` entries.
///
/// The caller's buffer where there is one, with its contents, made longer
/// with `fill` where it is too short for the engine to write to; a buffer
/// of `needed` times `fill` where there is none.
pub open spec fn fitted<T>(buf: Option<Seq<T>>, needed: nat, fill: T) -> Seq<T> {
    match buf {
        None => Seq::new(needed, |i: int| fill),
        Some(b) => if b.len() >= needed {
            b
        } else {
            b + Seq::new((needed - b.len()) as nat, |i: int| fill)
        },
    }
}

/// Makes the buffer that goes to the engine for `needed` entries.
pub fn fit_buffer<T: Copy>(buf: Option<Vec<T>>, needed: u64, fill: T) -> (r: Vec<T>)
    ensures
        r@ == fitted(optional_view(buf), needed as nat, fill),
        r.len() >= needed,
{
    let mut r: Vec<T> = match buf {
        Some(b) => b,
        None => Vec::new(),
    };
    let ghost start = r@;
    while (r.len() as u64) < needed
        invariant
            start.len() <= r.len(),
            r.len() <= needed || r@ == start,
            r@ == start + Seq::new((r.len() - start.len()) as nat, |i: int| fill),
        decreases needed - r.len(),
    {
        r.push(fill);
        assert(r@ =~= start + Seq::new((r.len() - start.len()) as nat, |i: int| fill));
    }
    assert(r@ =~= fitted(optional_view(buf), needed as nat, fill));
    r
}

/// The number of decision values for a model of `nr_class` classes.
pub fn decision_value_len(nr_class: i32) -> (n: u64)
    ensures
        n == decision_value_count(nr_class as int),
{
    let c: i64 = nr_class as i64;
    assert(0 <= c * (c - 1) <= 0x4000_0000_8000_0000) by (nonlinear_arith)
        requires
            -0x8000_0000 <= c <= 0x7fff_ffff,
    ;
    let pairs: i64 = c * (c - 1) / 2;
    pairs as u64
}

/// The number of entries for a count that the engine reports.
pub fn slot_len(count: i32) -> (n: u64)
    ensures
        n == slots(count as int),
{
    if count > 0 {
        count as u64
    } else {
        0
    }
}

/// The buffer for the labels of a model of `nr_class` classes.
pub fn labels_buffer(nr_class: i32, buf: Option<Vec<i32>>) -> (r: Vec<i32>)
    ensures
        r@ == fitted(optional_view(buf), slots(nr_class as int), 0i32),
        r.len() >= nr_class,
{
    fit_buffer(buf, slot_len(nr_class), 0i32)
}

/// The buffer for the indices of a model's `nr_sv` support vectors.
pub fn sv_indices_buffer(nr_sv: i32, buf: Option<Vec<i32>>) -> (r: Vec<i32>)
    ensures
        r@ == fitted(optional_view(buf), slots(nr_sv as int), 0i32),
        r.len() >= nr_sv,
{
    fit_buffer(buf, slot_len(nr_sv), 0i32)
}

/// The buffer for the decision values of a model of `nr_class` classes.
/// `fill` is what fresh entries hold until the engine writes to them.
pub fn decision_values_buffer<T: Copy>(nr_class: i32, buf: Option<Vec<T>>, fill: T) -> (r: Vec<T>)
    ensures
        r@ == fitted(optional_view(buf), decision_value_count(nr_class as int), fill),
        r.len() >= decision_value_count(nr_class as int),
{
    fit_buffer(buf, decision_value_len(nr_class), fill)
}

/// The buffer for the class probabilities of a model of `nr_class` classes:
/// one entry for each class.  `fill` is what fresh entries hold until the
/// engine writes to them.
pub fn probability_buffer<T: Copy>(nr_class: i32, buf: Option<Vec<T>>, fill: T) -> (r: Vec<T>)
    ensures
        r@ == fitted(optional_view(buf), slots(nr_class as int), fill),
        r.len() >= nr_class,
{
    fit_buffer(buf, slot_len(nr_class), fill)
}

/// Reads the engine's answer to a request to save a model: zero is success,
/// anything else failure.
pub fn save_succeeded(status: i32) -> (ok: bool)
    ensures
        ok == (status == 0),
{
    status == 0
}

/// Reads the engine's answer to the question whether a model can estimate
/// probabilities: zero is no, anything else yes.
pub fn probability_supported(answer: i32) -> (supported: bool)
    ensures
        supported == (answer != 0),
{
    answer != 0
}

} // verus!
