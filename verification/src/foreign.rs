//! The engine's side of the parameter set: its type codes and its flat
//! parameter record.
//!
//! The record is held here as plain values.  Where the engine's own record
//! has a pointer to an array, this one has the array itself, or `None` for
//! the null pointer; the application lays the values out for the engine.

use vstd::prelude::*;
use crate::double::Double;
use crate::vecs::optional_view;

verus! {

/// The kinds of machine the engine trains.
#[derive(Clone, Copy, Debug, PartialEq, Eq, Hash, Structural)]
pub enum SvmType {
    CSvc,
    NuSvc,
    OneClass,
    EpsilonSvr,
    NuSvr,
}

impl SvmType {
    /// The number by which the engine names this kind of machine.
    pub open spec fn code(self) -> int {
        match self {
            SvmType::CSvc => 0,
            SvmType::NuSvc => 1,
            SvmType::OneClass => 2,
            SvmType::EpsilonSvr => 3,
            SvmType::NuSvr => 4,
        }
    }

    /// The number by which the engine names this kind of machine.
    pub fn to_code(self) -> (code: i32)
        ensures
            code == self.code(),
    {
        match self {
            SvmType::CSvc => 0,
            SvmType::NuSvc => 1,
            SvmType::OneClass => 2,
            SvmType::EpsilonSvr => 3,
            SvmType::NuSvr => 4,
        }
    }

    /// The kind of machine that the engine names by `code`, if any.
    pub fn from_code(code: i32) -> (t: Option<SvmType>)
        ensures
            t matches Some(kind) ==> kind.code() == code,
            t is Some <==> 0 <= code <= 4,
    {
        if code == 0 {
            Some(SvmType::CSvc)
        } else if code == 1 {
            Some(SvmType::NuSvc)
        } else if code == 2 {
            Some(SvmType::OneClass)
        } else if code == 3 {
            Some(SvmType::EpsilonSvr)
        } else if code == 4 {
            Some(SvmType::NuSvr)
        } else {
            None
        }
    }
}

/// The kernels the engine evaluates.
#[derive(Clone, Copy, Debug, PartialEq, Eq, Hash, Structural)]
pub enum KernelType {
    Linear,
    Poly,
    Rbf,
    Sigmoid,
    Precomputed,
}

impl KernelType {
    /// The number by which the engine names this kernel.
    pub open spec fn code(self) -> int {
        match self {
            KernelType::Linear => 0,
            KernelType::Poly => 1,
            KernelType::Rbf => 2,
            KernelType::Sigmoid => 3,
            KernelType::Precomputed => 4,
        }
    }

    /// The number by which the engine names this kernel.
    pub fn to_code(self) -> (code: i32)
        ensures
            code == self.code(),
    {
        match self {
            KernelType::Linear => 0,
            KernelType::Poly => 1,
            KernelType::Rbf => 2,
            KernelType::Sigmoid => 3,
            KernelType::Precomputed => 4,
        }
    }

    /// The kernel that the engine names by `code`, if any.
    pub fn from_code(code: i32) -> (t: Option<KernelType>)
        ensures
            t matches Some(kernel) ==> kernel.code() == code,
            t is Some <==> 0 <= code <= 4,
    {
        if code == 0 {
            Some(KernelType::Linear)
        } else if code == 1 {
            Some(KernelType::Poly)
        } else if code == 2 {
            Some(KernelType::Rbf)
        } else if code == 3 {
            Some(KernelType::Sigmoid)
        } else if code == 4 {
            Some(KernelType::Precomputed)
        } else {
            None
        }
    }
}

/// The engine's flat parameter record.
///
/// Every field is always present; which of them the engine reads depends on
/// `svm_type` and `kernel_type`.  `weight_label` and `weight` stand for two
/// arrays of `nr_weight` entries each, `None` for a null pointer.
#[derive(Debug)]
pub struct CSvmParameter {
    pub svm_type: SvmType,
    pub kernel_type: KernelType,
    pub degree: i32,
    pub gamma: Double,
    pub coef0: Double,
    pub cache_size: Double,
    pub eps: Double,
    pub c: Double,
    pub nr_weight: i32,
    pub weight_label: Option<Vec<i32>>,
    pub weight: Option<Vec<Double>>,
    pub nu: Double,
    pub p: Double,
    pub shrinking: bool,
    pub probability: bool,
}

/// What a flat parameter record holds, as mathematical values.
pub struct FlatParameter {
    pub svm_type: SvmType,
    pub kernel_type: KernelType,
    pub degree: i32,
    pub gamma: Double,
    pub coef0: Double,
    pub cache_size: Double,
    pub eps: Double,
    pub c: Double,
    pub nr_weight: i32,
    pub weight_label: Option<Seq<i32>>,
    pub weight: Option<Seq<Double>>,
    pub nu: Double,
    pub p: Double,
    pub shrinking: bool,
    pub probability: bool,
}

impl FlatParameter {
    /// The engine can read what the record announces: the number of class
    /// weights is not negative, and where it is positive both arrays are
    /// there and hold as many entries or more.
    pub open spec fn is_readable(self) -> bool {
        &&& self.nr_weight >= 0
        &&& self.nr_weight > 0 ==> {
            &&& self.weight_label matches Some(labels) && labels.len() >= self.nr_weight
            &&& self.weight matches Some(weights) && weights.len() >= self.nr_weight
        }
    }
}

impl View for CSvmParameter {
    type V = FlatParameter;

    open spec fn view(&self) -> FlatParameter {
        FlatParameter {
            svm_type: self.svm_type,
            kernel_type: self.kernel_type,
            degree: self.degree,
            gamma: self.gamma,
            coef0: self.coef0,
            cache_size: self.cache_size,
            eps: self.eps,
            c: self.c,
            nr_weight: self.nr_weight,
            weight_label: optional_view(self.weight_label),
            weight: optional_view(self.weight),
            nu: self.nu,
            p: self.p,
            shrinking: self.shrinking,
            probability: self.probability,
        }
    }
}

/// The neutral record: the first kind of machine, the first kernel, every
/// number zero, every switch off, no arrays.
pub open spec fn neutral() -> FlatParameter {
    FlatParameter {
        svm_type: SvmType::CSvc,
        kernel_type: KernelType::Linear,
        degree: 0,
        gamma: Double { bits: 0 },
        coef0: Double { bits: 0 },
        cache_size: Double { bits: 0 },
        eps: Double { bits: 0 },
        c: Double { bits: 0 },
        nr_weight: 0,
        weight_label: None,
        weight: None,
        nu: Double { bits: 0 },
        p: Double { bits: 0 },
        shrinking: false,
        probability: false,
    }
}

impl CSvmParameter {
    /// Whether the engine can read what the record announces.  A record
    /// that fails this must not go to the engine.
    pub fn is_readable(&self) -> (r: bool)
        ensures
            r == self@.is_readable(),
    {
        if self.nr_weight < 0 {
            return false;
        }
        if self.nr_weight == 0 {
            return true;
        }
        match (&self.weight_label, &self.weight) {
            (Some(labels), Some(weights)) => {
                labels.len() >= self.nr_weight as usize && weights.len() >= self.nr_weight as usize
            },
            _ => false,
        }
    }
}

impl Default for CSvmParameter {
    /// The neutral record, from which a conversion starts.
    fn default() -> (r: CSvmParameter)
        ensures
            r@ == neutral(),
    {
        CSvmParameter {
            svm_type: SvmType::CSvc,
            kernel_type: KernelType::Linear,
            degree: 0,
            gamma: Double::zero(),
            coef0: Double::zero(),
            cache_size: Double::zero(),
            eps: Double::zero(),
            c: Double::zero(),
            nr_weight: 0,
            weight_label: None,
            weight: None,
            nu: Double::zero(),
            p: Double::zero(),
            shrinking: false,
            probability: false,
        }
    }
}

} // verus!
