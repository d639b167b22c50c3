//! The training set, and the verdict on the engine's check of it.

use vstd::prelude::*;
use crate::datavec::DataVec;
use crate::double::Double;
use crate::error::SvmError;
use crate::node::SvmNode;
use crate::normal_form::{all_valid, is_first_invalid, is_normal, normalized};

verus! {

/// A training set: examples in the order they were added, each a label or
/// target value with its sparse vector.
///
/// Every vector in the set is clean and in normal form, ready for the
/// engine.
#[derive(Debug)]
pub struct SvmProblem {
    y: Vec<Double>,
    x: Vec<DataVec>,
}

impl SvmProblem {
    /// The labels or target values, one for each example.
    pub closed spec fn labels(&self) -> Seq<Double> {
        self.y@
    }

    /// The nodes of each example's vector.
    pub closed spec fn vectors(&self) -> Seq<Seq<SvmNode>> {
        Seq::new(self.x@.len(), |i: int| self.x@[i]@)
    }

    /// The set keeps its promise: a label for each vector, and every
    /// vector clean and in normal form.
    pub closed spec fn wf(&self) -> bool {
        &&& self.y@.len() == self.x@.len()
        &&& forall|i: int|
            0 <= i < self.x@.len() ==> !(#[trigger] self.x@[i]).is_dirty() && is_normal(
                self.x@[i]@,
            )
    }

    /// A training set with no examples.
    pub fn new() -> (r: SvmProblem)
        ensures
            r.wf(),
            r.labels() == Seq::<Double>::empty(),
            r.vectors() == Seq::<Seq<SvmNode>>::empty(),
    {
        let r = SvmProblem { y: Vec::new(), x: Vec::new() };
        assert(r.vectors() =~= Seq::<Seq<SvmNode>>::empty());
        r
    }

    /// Adds an example at the end.
    ///
    /// A dirty vector is brought to normal form first.  Where that fails on
    /// an invalid index, the fault is reported and the set stays as it is.
    pub fn add(&mut self, label: Double, vector: DataVec) -> (r: Result<(), SvmError>)
        requires
            old(self).wf(),
            vector.wf(),
        ensures
            final(self).wf(),
            r is Ok <==> !vector.is_dirty() || all_valid(vector@),
            r is Ok ==> final(self).labels() == old(self).labels().push(label)
                && final(self).vectors() == old(self).vectors().push(
                if vector.is_dirty() {
                    normalized(vector@)
                } else {
                    vector@
                },
            ),
            r matches Err(e) ==> is_first_invalid(vector@, e) && final(self).labels() == old(
                self,
            ).labels() && final(self).vectors() == old(self).vectors(),
    {
        let mut vector = vector;
        match vector.resort() {
            Ok(()) => {
                let ghost before = self.vectors();
                self.y.push(label);
                self.x.push(vector);
                assert(self.vectors() =~= before.push(vector@));
                Ok(())
            },
            Err(e) => Err(e),
        }
    }

    /// The number of examples.
    pub fn len(&self) -> (n: usize)
        requires
            self.wf(),
        ensures
            n == self.labels().len(),
            n == self.vectors().len(),
    {
        self.y.len()
    }

    /// The label or target value of example `i`.
    pub fn label(&self, i: usize) -> (y: Double)
        requires
            i < self.labels().len(),
        ensures
            y == self.labels()[i as int],
    {
        self.y[i]
    }

    /// The vector of example `i`: clean and in normal form.
    pub fn vector(&self, i: usize) -> (v: &DataVec)
        requires
            self.wf(),
            i < self.vectors().len(),
        ensures
            v@ == self.vectors()[i as int],
            !v.is_dirty(),
            v.wf(),
            is_normal(v@),
    {
        &self.x[i]
    }
}

/// The verdict on the engine's check of a parameter set against a training
/// set.  The engine answers with nothing where it is content and with a
/// diagnostic where it is not; training goes ahead only on `Ok`, and the
/// diagnostic is handed on word for word.
pub fn check_outcome(diagnostic: Option<String>) -> (r: Result<(), SvmError>)
    ensures
        r is Ok <==> diagnostic is None,
        diagnostic matches Some(text) ==> r == Err::<(), SvmError>(
            SvmError::InvalidParameter { detail: text },
        ),
{
    match diagnostic {
        None => Ok(()),
        Some(text) => Err(SvmError::InvalidParameter { detail: text }),
    }
}

} // verus!
