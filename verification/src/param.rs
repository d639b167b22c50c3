//! The parameter set of a training run, and its conversion to and from
//! the engine's flat record.
//!
//! A parameter set names a kernel and a kind of machine, each with just the
//! numbers that it takes.  The flat record has a slot for every number of
//! every kernel and machine; conversion fills the slots of the chosen ones
//! and leaves the rest neutral.
//!
//! For a C-classification machine the per-class weights are flattened into
//! two arrays, which the parameter set keeps.  A trained model may go on
//! reading them, so a parameter set that went into a model is frozen: from
//! then on conversion hands out the arrays it has and never makes new ones.

use vstd::prelude::*;
use crate::double::Double;
use crate::foreign::{CSvmParameter, FlatParameter, KernelType, SvmType};
use crate::vecs::{copy_of, optional_view};

verus! {

/// A kernel with the numbers it takes.
#[derive(Clone, Copy, Debug, PartialEq, Eq, Structural)]
pub enum KernelParam {
    Linear,
    Poly { degree: i32, gamma: Double, coef0: Double },
    Rbf { gamma: Double },
    Sigmoid { gamma: Double, coef0: Double },
    Precomputed,
}

impl KernelParam {
    /// The engine's name for the kernel.
    pub open spec fn kernel_type(self) -> KernelType {
        match self {
            KernelParam::Linear => KernelType::Linear,
            KernelParam::Poly { .. } => KernelType::Poly,
            KernelParam::Rbf { .. } => KernelType::Rbf,
            KernelParam::Sigmoid { .. } => KernelType::Sigmoid,
            KernelParam::Precomputed => KernelType::Precomputed,
        }
    }

    /// The degree the kernel takes, zero where it takes none.
    pub open spec fn degree(self) -> i32 {
        match self {
            KernelParam::Poly { degree, .. } => degree,
            _ => 0,
        }
    }

    /// The gamma the kernel takes, zero where it takes none.
    pub open spec fn gamma(self) -> Double {
        match self {
            KernelParam::Poly { gamma, .. } => gamma,
            KernelParam::Rbf { gamma } => gamma,
            KernelParam::Sigmoid { gamma, .. } => gamma,
            _ => Double { bits: 0 },
        }
    }

    /// The constant term the kernel takes, zero where it takes none.
    pub open spec fn coef0(self) -> Double {
        match self {
            KernelParam::Poly { coef0, .. } => coef0,
            KernelParam::Sigmoid { coef0, .. } => coef0,
            _ => Double { bits: 0 },
        }
    }

    /// The engine's name for the kernel.
    pub fn to_kernel_type(&self) -> (t: KernelType)
        ensures
            t == self.kernel_type(),
    {
        match *self {
            KernelParam::Linear => KernelType::Linear,
            KernelParam::Poly { .. } => KernelType::Poly,
            KernelParam::Rbf { .. } => KernelType::Rbf,
            KernelParam::Sigmoid { .. } => KernelType::Sigmoid,
            KernelParam::Precomputed => KernelType::Precomputed,
        }
    }
}

/// The weight of one class in C-classification: the cost of an error on an
/// example of class `label` is multiplied by `weight`.
#[derive(Clone, Copy, Debug, PartialEq, Eq, Structural)]
pub struct Weight {
    pub label: i32,
    pub weight: Double,
}

/// A kind of machine with the numbers it takes.
///
/// The class weights of C-classification are one list of pairs, so that no
/// label can be without its multiplier.
#[derive(Debug, PartialEq, Eq)]
pub enum SvmTypeParam {
    CSvc { c: Double, weights: Vec<Weight> },
    NuSvc { nu: Double },
    OneClass { nu: Double },
    EpsilonSvr { p: Double },
    NuSvr { nu: Double },
}

/// What a [`SvmTypeParam`] holds, as mathematical values.
pub enum MachineSpec {
    CSvc { c: Double, weights: Seq<Weight> },
    NuSvc { nu: Double },
    OneClass { nu: Double },
    EpsilonSvr { p: Double },
    NuSvr { nu: Double },
}

impl MachineSpec {
    /// The engine's name for the kind of machine.
    pub open spec fn svm_type(self) -> SvmType {
        match self {
            MachineSpec::CSvc { .. } => SvmType::CSvc,
            MachineSpec::NuSvc { .. } => SvmType::NuSvc,
            MachineSpec::OneClass { .. } => SvmType::OneClass,
            MachineSpec::EpsilonSvr { .. } => SvmType::EpsilonSvr,
            MachineSpec::NuSvr { .. } => SvmType::NuSvr,
        }
    }

    /// The class weights: those of C-classification, none for the others.
    pub open spec fn weights(self) -> Seq<Weight> {
        match self {
            MachineSpec::CSvc { weights, .. } => weights,
            _ => Seq::empty(),
        }
    }

    /// The cost the machine takes, zero where it takes none.
    pub open spec fn c(self) -> Double {
        match self {
            MachineSpec::CSvc { c, .. } => c,
            _ => Double { bits: 0 },
        }
    }

    /// The nu the machine takes, zero where it takes none.
    pub open spec fn nu(self) -> Double {
        match self {
            MachineSpec::NuSvc { nu } => nu,
            MachineSpec::OneClass { nu } => nu,
            MachineSpec::NuSvr { nu } => nu,
            _ => Double { bits: 0 },
        }
    }

    /// The tube width the machine takes, zero where it takes none.
    pub open spec fn p(self) -> Double {
        match self {
            MachineSpec::EpsilonSvr { p } => p,
            _ => Double { bits: 0 },
        }
    }
}

impl View for SvmTypeParam {
    type V = MachineSpec;

    open spec fn view(&self) -> MachineSpec {
        match *self {
            SvmTypeParam::CSvc { c, weights } => MachineSpec::CSvc { c, weights: weights@ },
            SvmTypeParam::NuSvc { nu } => MachineSpec::NuSvc { nu },
            SvmTypeParam::OneClass { nu } => MachineSpec::OneClass { nu },
            SvmTypeParam::EpsilonSvr { p } => MachineSpec::EpsilonSvr { p },
            SvmTypeParam::NuSvr { nu } => MachineSpec::NuSvr { nu },
        }
    }
}

impl SvmTypeParam {
    /// The engine's name for the kind of machine.
    pub fn to_svm_type(&self) -> (t: SvmType)
        ensures
            t == self@.svm_type(),
    {
        match self {
            SvmTypeParam::CSvc { .. } => SvmType::CSvc,
            SvmTypeParam::NuSvc { .. } => SvmType::NuSvc,
            SvmTypeParam::OneClass { .. } => SvmType::OneClass,
            SvmTypeParam::EpsilonSvr { .. } => SvmType::EpsilonSvr,
            SvmTypeParam::NuSvr { .. } => SvmType::NuSvr,
        }
    }
}

impl Clone for SvmTypeParam {
    fn clone(&self) -> (r: SvmTypeParam)
        ensures
            r@ == self@,
    {
        match self {
            SvmTypeParam::CSvc { c, weights } => SvmTypeParam::CSvc {
                c: *c,
                weights: copy_of(weights),
            },
            SvmTypeParam::NuSvc { nu } => SvmTypeParam::NuSvc { nu: *nu },
            SvmTypeParam::OneClass { nu } => SvmTypeParam::OneClass { nu: *nu },
            SvmTypeParam::EpsilonSvr { p } => SvmTypeParam::EpsilonSvr { p: *p },
            SvmTypeParam::NuSvr { nu } => SvmTypeParam::NuSvr { nu: *nu },
        }
    }
}

/// The labels of a list of class weights, in the order of the list.
pub open spec fn labels_of(weights: Seq<Weight>) -> Seq<i32> {
    Seq::new(weights.len(), |i: int| weights[i].label)
}

/// The multipliers of a list of class weights, in the order of the list.
pub open spec fn multipliers_of(weights: Seq<Weight>) -> Seq<Double> {
    Seq::new(weights.len(), |i: int| weights[i].weight)
}

/// How many class weights a flat record yields: as many as it announces,
/// and no more than either of its arrays holds.
pub open spec fn rebuilt_len(nr_weight: int, labels: Seq<i32>, weights: Seq<Double>) -> nat {
    let announced = if nr_weight < 0 { 0 } else { nr_weight };
    let held = if labels.len() <= weights.len() { labels.len() } else { weights.len() };
    if announced <= held { announced as nat } else { held }
}

/// The class weights that a flat record's two arrays stand for.  A null
/// array, or a record that announces none, stands for the empty list.
pub open spec fn rebuilt_weights(
    nr_weight: int,
    labels: Option<Seq<i32>>,
    weights: Option<Seq<Double>>,
) -> Seq<Weight> {
    match (labels, weights) {
        (Some(l), Some(w)) => Seq::new(
            rebuilt_len(nr_weight, l, w),
            |i: int| Weight { label: l[i], weight: w[i] },
        ),
        _ => Seq::empty(),
    }
}

/// The kernel that a flat record describes.
pub open spec fn kernel_of(f: FlatParameter) -> KernelParam {
    match f.kernel_type {
        KernelType::Linear => KernelParam::Linear,
        KernelType::Poly => KernelParam::Poly { degree: f.degree, gamma: f.gamma, coef0: f.coef0 },
        KernelType::Rbf => KernelParam::Rbf { gamma: f.gamma },
        KernelType::Sigmoid => KernelParam::Sigmoid { gamma: f.gamma, coef0: f.coef0 },
        KernelType::Precomputed => KernelParam::Precomputed,
    }
}

/// The kind of machine that a flat record describes.
pub open spec fn machine_of(f: FlatParameter) -> MachineSpec {
    match f.svm_type {
        SvmType::CSvc => MachineSpec::CSvc {
            c: f.c,
            weights: rebuilt_weights(f.nr_weight as int, f.weight_label, f.weight),
        },
        SvmType::NuSvc => MachineSpec::NuSvc { nu: f.nu },
        SvmType::OneClass => MachineSpec::OneClass { nu: f.nu },
        SvmType::EpsilonSvr => MachineSpec::EpsilonSvr { p: f.p },
        SvmType::NuSvr => MachineSpec::NuSvr { nu: f.nu },
    }
}

/// The class weights that a flat record's two arrays stand for.
pub fn make_weights(
    nr_weight: i32,
    weight_label: &Option<Vec<i32>>,
    weight: &Option<Vec<Double>>,
) -> (r: Vec<Weight>)
    ensures
        r@ == rebuilt_weights(nr_weight as int, optional_view(*weight_label), optional_view(*weight)),
{
    let mut r: Vec<Weight> = Vec::new();
    match (weight_label, weight) {
        (Some(labels), Some(weights)) => {
            if nr_weight > 0 {
                let ghost n = rebuilt_len(nr_weight as int, labels@, weights@);
                let mut i: usize = 0;
                while i < labels.len() && i < weights.len() && i < nr_weight as usize
                    invariant
                        nr_weight > 0,
                        n == rebuilt_len(nr_weight as int, labels@, weights@),
                        i <= n,
                        r@ == rebuilt_weights(
                            nr_weight as int,
                            Some(labels@),
                            Some(weights@),
                        ).take(i as int),
                    decreases n - i,
                {
                    r.push(Weight { label: labels[i], weight: weights[i] });
                    proof {
                        let all = rebuilt_weights(nr_weight as int, Some(labels@), Some(weights@));
                        assert(all.take(i + 1) =~= all.take(i as int).push(all[i as int]));
                    }
                    i += 1;
                }
                proof {
                    let all = rebuilt_weights(nr_weight as int, Some(labels@), Some(weights@));
                    assert(all.take(i as int) =~= all);
                }
            } else {
                assert(r@ =~= rebuilt_weights(nr_weight as int, Some(labels@), Some(weights@)));
            }
        },
        _ => {},
    }
    r
}

/// The two arrays into which the class weights of C-classification are
/// flattened for the engine: entry `i` of `labels` goes with entry `i` of
/// `weights`.
#[derive(Debug)]
pub struct WeightArrays {
    pub labels: Vec<i32>,
    pub weights: Vec<Double>,
}

/// What a parameter set keeps for itself: the flattened class weights of
/// its last conversion, and the mark that it went into a trained model.
#[derive(Debug)]
pub struct WeightCache {
    arrays: Option<WeightArrays>,
    in_model: bool,
}

impl WeightCache {
    /// The parameter set went into a trained model.
    pub closed spec fn is_frozen(&self) -> bool {
        self.in_model
    }

    /// The label array that is kept, if one is.
    pub closed spec fn labels(&self) -> Option<Seq<i32>> {
        match self.arrays {
            Some(a) => Some(a.labels@),
            None => None,
        }
    }

    /// The multiplier array that is kept, if one is.
    pub closed spec fn weights(&self) -> Option<Seq<Double>> {
        match self.arrays {
            Some(a) => Some(a.weights@),
            None => None,
        }
    }

    /// The two arrays come and go together.
    pub proof fn lemma_arrays_come_together(&self)
        ensures
            self.labels() is Some <==> self.weights() is Some,
    {
    }

    /// A cache with no arrays, not frozen.
    pub fn new() -> (r: WeightCache)
        ensures
            !r.is_frozen(),
            r.labels() is None,
            r.weights() is None,
    {
        WeightCache { arrays: None, in_model: false }
    }

    /// Whether the parameter set went into a trained model.
    pub fn in_model(&self) -> (r: bool)
        ensures
            r == self.is_frozen(),
    {
        self.in_model
    }

    /// The arrays that are kept, if any are.
    pub fn arrays(&self) -> (r: Option<&WeightArrays>)
        ensures
            r matches Some(a) ==> self.labels() == Some(a.labels@) && self.weights() == Some(
                a.weights@,
            ),
            r is None ==> self.labels() is None && self.weights() is None,
    {
        self.arrays.as_ref()
    }
}

impl Clone for WeightCache {
    fn clone(&self) -> (r: WeightCache)
        ensures
            r.is_frozen() == self.is_frozen(),
            r.labels() == self.labels(),
            r.weights() == self.weights(),
    {
        WeightCache {
            arrays: match &self.arrays {
                Some(a) => Some(
                    WeightArrays { labels: copy_of(&a.labels), weights: copy_of(&a.weights) },
                ),
                None => None,
            },
            in_model: self.in_model,
        }
    }
}

/// The parameters of a training run.
///
/// The kernel, the kind of machine and the four knobs are the caller's to
/// read and to change.  `cache` is the parameter set's own.
#[derive(Debug)]
pub struct SvmParameter {
    pub kernel_param: KernelParam,
    pub svm_type_param: SvmTypeParam,
    pub shrinking: bool,
    pub probability: bool,
    pub cache_size: Double,
    pub epsilon: Double,
    pub cache: WeightCache,
}

impl SvmParameter {
    /// The parameter set went into a trained model.
    pub open spec fn is_frozen(&self) -> bool {
        self.cache.is_frozen()
    }

    /// The label array that the parameter set keeps, if it keeps one.
    pub open spec fn cached_labels(&self) -> Option<Seq<i32>> {
        self.cache.labels()
    }

    /// The multiplier array that the parameter set keeps, if it keeps one.
    pub open spec fn cached_weights(&self) -> Option<Seq<Double>> {
        self.cache.weights()
    }

    /// The kernel, the machine and the knobs are those of `other`.
    pub open spec fn same_settings(&self, other: &SvmParameter) -> bool {
        &&& self.kernel_param == other.kernel_param
        &&& self.svm_type_param@ == other.svm_type_param@
        &&& self.shrinking == other.shrinking
        &&& self.probability == other.probability
        &&& self.cache_size == other.cache_size
        &&& self.epsilon == other.epsilon
    }

    /// The arrays that are kept are those that `other` keeps.
    pub open spec fn same_arrays(&self, other: &SvmParameter) -> bool {
        &&& self.cached_labels() == other.cached_labels()
        &&& self.cached_weights() == other.cached_weights()
    }

    /// The kernel, the machine and the knobs are those that the flat record
    /// `f` describes, and no arrays are kept.
    pub open spec fn is_read_from(&self, f: FlatParameter) -> bool {
        &&& self.kernel_param == kernel_of(f)
        &&& self.svm_type_param@ == machine_of(f)
        &&& self.shrinking == f.shrinking
        &&& self.probability == f.probability
        &&& self.cache_size == f.cache_size
        &&& self.epsilon == f.eps
        &&& self.cached_labels() is None
        &&& self.cached_weights() is None
    }

    /// Conversion will hand out the arrays that are there: the parameter
    /// set is frozen and has them.
    pub open spec fn keeps_arrays(&self) -> bool {
        self.is_frozen() && self.cached_labels() is Some
    }

    /// The label array that the parameter set keeps once converted.
    pub open spec fn labels_after_conversion(&self) -> Option<Seq<i32>> {
        if self.keeps_arrays() {
            self.cached_labels()
        } else if self.svm_type_param@ is CSvc {
            Some(labels_of(self.svm_type_param@.weights()))
        } else {
            None
        }
    }

    /// The multiplier array that the parameter set keeps once converted.
    pub open spec fn weights_after_conversion(&self) -> Option<Seq<Double>> {
        if self.keeps_arrays() {
            self.cached_weights()
        } else if self.svm_type_param@ is CSvc {
            Some(multipliers_of(self.svm_type_param@.weights()))
        } else {
            None
        }
    }

    /// The flat record that conversion produces.
    ///
    /// The slots of the chosen kernel and machine hold their numbers, all
    /// other slots are neutral.  The two arrays are there for
    /// C-classification only, and are those that the parameter set keeps
    /// once converted.
    pub open spec fn flat(&self) -> FlatParameter {
        let kernel = self.kernel_param;
        let machine = self.svm_type_param@;
        FlatParameter {
            svm_type: machine.svm_type(),
            kernel_type: kernel.kernel_type(),
            degree: kernel.degree(),
            gamma: kernel.gamma(),
            coef0: kernel.coef0(),
            cache_size: self.cache_size,
            eps: self.epsilon,
            c: machine.c(),
            nr_weight: machine.weights().len() as i32,
            weight_label: if machine is CSvc {
                self.labels_after_conversion()
            } else {
                None
            },
            weight: if machine is CSvc {
                self.weights_after_conversion()
            } else {
                None
            },
            nu: machine.nu(),
            p: machine.p(),
            shrinking: self.shrinking,
            probability: self.probability,
        }
    }

    /// The arrays that a frozen parameter set keeps are those of its class
    /// weights as they are now.  A parameter set that is free to make its
    /// arrays anew always meets this.
    pub open spec fn arrays_are_current(&self) -> bool {
        self.keeps_arrays() && self.svm_type_param@ is CSvc ==> {
            &&& self.cached_labels() == Some(labels_of(self.svm_type_param@.weights()))
            &&& self.cached_weights() == Some(multipliers_of(self.svm_type_param@.weights()))
        }
    }

    /// Builds a parameter set from its parts, free and with no arrays yet.
    pub fn new(
        kernel_param: KernelParam,
        svm_type_param: SvmTypeParam,
        shrinking: bool,
        probability: bool,
        cache_size: Double,
        epsilon: Double,
    ) -> (r: SvmParameter)
        ensures
            r.kernel_param == kernel_param,
            r.svm_type_param == svm_type_param,
            r.shrinking == shrinking,
            r.probability == probability,
            r.cache_size == cache_size,
            r.epsilon == epsilon,
            !r.is_frozen(),
            r.cached_labels() is None,
            r.cached_weights() is None,
    {
        SvmParameter {
            kernel_param,
            svm_type_param,
            shrinking,
            probability,
            cache_size,
            epsilon,
            cache: WeightCache::new(),
        }
    }

    /// Rebuilds the parameter set that a flat record describes.
    ///
    /// The kernel and the machine are those the record names, each with the
    /// numbers of its own slots; the class weights of C-classification are
    /// read off the record's two arrays.  The result is free and keeps no
    /// arrays.
    pub fn from_crep(crep: &CSvmParameter) -> (r: SvmParameter)
        ensures
            r.is_read_from(crep@),
            !r.is_frozen(),
    {
        SvmParameter {
            cache: WeightCache::new(),
            shrinking: crep.shrinking,
            probability: crep.probability,
            cache_size: crep.cache_size,
            epsilon: crep.eps,
            kernel_param: match crep.kernel_type {
                KernelType::Linear => KernelParam::Linear,
                KernelType::Poly => KernelParam::Poly {
                    degree: crep.degree,
                    gamma: crep.gamma,
                    coef0: crep.coef0,
                },
                KernelType::Rbf => KernelParam::Rbf { gamma: crep.gamma },
                KernelType::Sigmoid => KernelParam::Sigmoid {
                    gamma: crep.gamma,
                    coef0: crep.coef0,
                },
                KernelType::Precomputed => KernelParam::Precomputed,
            },
            svm_type_param: match crep.svm_type {
                SvmType::CSvc => SvmTypeParam::CSvc {
                    c: crep.c,
                    weights: make_weights(crep.nr_weight, &crep.weight_label, &crep.weight),
                },
                SvmType::NuSvc => SvmTypeParam::NuSvc { nu: crep.nu },
                SvmType::OneClass => SvmTypeParam::OneClass { nu: crep.nu },
                SvmType::EpsilonSvr => SvmTypeParam::EpsilonSvr { p: crep.p },
                SvmType::NuSvr => SvmTypeParam::NuSvr { nu: crep.nu },
            },
        }
    }

    /// Converts the parameter set into the engine's flat record.
    ///
    /// The kernel, the machine and the knobs stay as they are.  A free
    /// parameter set makes its two arrays anew from the class weights it has
    /// now; a frozen one keeps the arrays it has, whatever has become of its
    /// class weights, and makes them only if it has none.
    pub fn crep(&mut self) -> (r: CSvmParameter)
        requires
            old(self).svm_type_param@.weights().len() <= i32::MAX,
        ensures
            r@ == old(self).flat(),
            final(self).same_settings(old(self)),
            final(self).is_frozen() == old(self).is_frozen(),
            final(self).cached_labels() == old(self).labels_after_conversion(),
            final(self).cached_weights() == old(self).weights_after_conversion(),
            old(self).keeps_arrays() ==> final(self).same_arrays(old(self)),
            old(self).arrays_are_current() ==> r@.is_readable(),
    {
        proof {
            self.cache.lemma_arrays_come_together();
        }
        if !self.cache.in_model() {
            self.invalidate_cache();
        }
        let mut c_params = CSvmParameter::default();

        c_params.kernel_type = self.kernel_param.to_kernel_type();
        match self.kernel_param {
            KernelParam::Poly { degree, gamma, coef0 } => {
                c_params.degree = degree;
                c_params.gamma = gamma;
                c_params.coef0 = coef0;
            },
            KernelParam::Rbf { gamma } => {
                c_params.gamma = gamma;
            },
            KernelParam::Sigmoid { gamma, coef0 } => {
                c_params.gamma = gamma;
                c_params.coef0 = coef0;
            },
            KernelParam::Linear => {},
            KernelParam::Precomputed => {},
        }

        c_params.svm_type = self.svm_type_param.to_svm_type();
        match &self.svm_type_param {
            SvmTypeParam::CSvc { c, weights } => {
                c_params.c = *c;
                SvmParameter::cache_weights(&mut self.cache, weights);
                c_params.nr_weight = weights.len() as i32;
                match self.cache.arrays() {
                    Some(arrays) => {
                        c_params.weight = Some(copy_of(&arrays.weights));
                        c_params.weight_label = Some(copy_of(&arrays.labels));
                    },
                    None => {},
                }
            },
            SvmTypeParam::NuSvc { nu } => {
                c_params.nu = *nu;
            },
            SvmTypeParam::OneClass { nu } => {
                c_params.nu = *nu;
            },
            SvmTypeParam::EpsilonSvr { p } => {
                c_params.p = *p;
            },
            SvmTypeParam::NuSvr { nu } => {
                c_params.nu = *nu;
            },
        }

        c_params.shrinking = self.shrinking;
        c_params.probability = self.probability;
        c_params.cache_size = self.cache_size;
        c_params.eps = self.epsilon;

        c_params
    }

    /// Drops the two arrays, so that the next conversion makes them anew.
    fn invalidate_cache(&mut self)
        ensures
            final(self).same_settings(old(self)),
            final(self).is_frozen() == old(self).is_frozen(),
            final(self).cached_labels() is None,
            final(self).cached_weights() is None,
    {
        self.cache.arrays = None;
    }

    /// Flattens the class weights into the two arrays, unless they are there.
    fn cache_weights(cache: &mut WeightCache, weights: &Vec<Weight>)
        ensures
            final(cache).is_frozen() == old(cache).is_frozen(),
            old(cache).labels() is Some ==> final(cache).labels() == old(cache).labels()
                && final(cache).weights() == old(cache).weights(),
            old(cache).labels() is None ==> final(cache).labels() == Some(labels_of(weights@))
                && final(cache).weights() == Some(multipliers_of(weights@)),
    {
        if cache.arrays.is_some() {
            return ;
        }
        let mut raw_weight_labels: Vec<i32> = Vec::with_capacity(weights.len());
        let mut raw_weights: Vec<Double> = Vec::with_capacity(weights.len());
        let mut i: usize = 0;
        while i < weights.len()
            invariant
                i <= weights.len(),
                raw_weight_labels@ == labels_of(weights@).take(i as int),
                raw_weights@ == multipliers_of(weights@).take(i as int),
            decreases weights.len() - i,
        {
            let w = weights[i];
            raw_weight_labels.push(w.label);
            raw_weights.push(w.weight);
            proof {
                let l = labels_of(weights@);
                let m = multipliers_of(weights@);
                assert(l.take(i + 1) =~= l.take(i as int).push(l[i as int]));
                assert(m.take(i + 1) =~= m.take(i as int).push(m[i as int]));
            }
            i += 1;
        }
        proof {
            assert(labels_of(weights@).take(i as int) =~= labels_of(weights@));
            assert(multipliers_of(weights@).take(i as int) =~= multipliers_of(weights@));
        }
        cache.arrays = Some(WeightArrays { labels: raw_weight_labels, weights: raw_weights });
    }
}

impl Clone for SvmParameter {
    fn clone(&self) -> (r: SvmParameter)
        ensures
            r.same_settings(self),
            r.same_arrays(self),
            r.is_frozen() == self.is_frozen(),
    {
        SvmParameter {
            kernel_param: self.kernel_param,
            svm_type_param: self.svm_type_param.clone(),
            shrinking: self.shrinking,
            probability: self.probability,
            cache_size: self.cache_size,
            epsilon: self.epsilon,
            cache: self.cache.clone(),
        }
    }
}

/// Marks a parameter set as frozen or as free; nothing else changes.
pub fn set_in_model(param: &mut SvmParameter, val: bool)
    ensures
        final(param).is_frozen() == val,
        final(param).same_settings(old(param)),
        final(param).same_arrays(old(param)),
{
    param.cache.in_model = val;
}

/// Rebuilds the parameter set that a flat record describes.
pub fn param_from_crep(crep: &CSvmParameter) -> (r: SvmParameter)
    ensures
        r.is_read_from(crep@),
        !r.is_frozen(),
{
    SvmParameter::from_crep(crep)
}

/// Converts a parameter set into the engine's flat record.
pub fn crep(param: &mut SvmParameter) -> (r: CSvmParameter)
    requires
        old(param).svm_type_param@.weights().len() <= i32::MAX,
    ensures
        r@ == old(param).flat(),
        final(param).same_settings(old(param)),
        final(param).is_frozen() == old(param).is_frozen(),
        final(param).cached_labels() == old(param).labels_after_conversion(),
        final(param).cached_weights() == old(param).weights_after_conversion(),
        old(param).keeps_arrays() ==> final(param).same_arrays(old(param)),
        old(param).arrays_are_current() ==> r@.is_readable(),
{
    param.crep()
}

/// A parameter set that is free to make its arrays anew, or has none, has
/// arrays that are current.
pub proof fn lemma_free_is_current(p: SvmParameter)
    requires
        !p.keeps_arrays(),
    ensures
        p.arrays_are_current(),
{
}

/// The two arrays of a list of class weights stand for that list.
pub proof fn lemma_flattening_is_undone(weights: Seq<Weight>)
    ensures
        rebuilt_weights(
            weights.len() as int,
            Some(labels_of(weights)),
            Some(multipliers_of(weights)),
        ) == weights,
{
    assert(rebuilt_weights(
        weights.len() as int,
        Some(labels_of(weights)),
        Some(multipliers_of(weights)),
    ) =~= weights);
}

/// Converting a parameter set and reading the record back gives the
/// kernel, the machine and the knobs that went in; for C-classification
/// the class weights come back pair by pair, in their order.
///
/// This asks that the arrays be current.  A frozen parameter set whose
/// class weights were changed after it was frozen hands out its old arrays,
/// and those are what comes back.
pub proof fn lemma_round_trip(p: SvmParameter)
    requires
        p.svm_type_param@.weights().len() <= i32::MAX,
        p.arrays_are_current(),
    ensures
        kernel_of(p.flat()) == p.kernel_param,
        machine_of(p.flat()) == p.svm_type_param@,
        p.flat().shrinking == p.shrinking,
        p.flat().probability == p.probability,
        p.flat().cache_size == p.cache_size,
        p.flat().eps == p.epsilon,
{
    let machine = p.svm_type_param@;
    if machine is CSvc {
        let weights = machine.weights();
        lemma_flattening_is_undone(weights);
    }
}

/// A parameter set whose arrays are current converts to a record that the
/// engine can read.
pub proof fn lemma_current_record_is_readable(p: SvmParameter)
    requires
        p.svm_type_param@.weights().len() <= i32::MAX,
        p.arrays_are_current(),
    ensures
        p.flat().is_readable(),
{
}

/// A frozen parameter set that has its arrays keeps them through every
/// conversion, whatever its kind of machine and class weights have become
/// since: `after` is `before` with any configuration put in its place.
pub proof fn lemma_frozen_arrays_survive(before: SvmParameter, after: SvmParameter)
    requires
        before.keeps_arrays(),
        after.is_frozen(),
        after.cached_labels() == before.cached_labels(),
        after.cached_weights() == before.cached_weights(),
    ensures
        after.labels_after_conversion() == before.cached_labels(),
        after.weights_after_conversion() == before.cached_weights(),
        after.svm_type_param@ is CSvc ==> after.flat().weight_label == before.cached_labels()
            && after.flat().weight == before.cached_weights(),
{
}

} // verus!
