//! Sparse feature vectors in the encoding the engine reads.
//!
//! The engine walks a vector node by node until it meets the terminator, and
//! expects the feature indices before it in ascending order.  [`DataVec`]
//! produces that encoding from dense values or from loose pairs, and restores
//! it after a caller has edited the nodes.

use vstd::prelude::*;
use crate::double::Double;
use crate::error::SvmError;
use crate::node::{SvmNode, SENTINEL_INDEX};
use crate::normal_form::{
    all_valid, dense_nodes, features, is_first_invalid, is_normal, lemma_normalized_is_normal,
    lemma_sparse_of_dense_is_normal, normalized, not_sentinel, not_zero, only_sentinel,
    sentinels, sparse_of_dense,
};
use crate::sort::{
    is_ascending, lemma_push_keeps_ascending, lemma_sort_by_index_fixes_ascending, merge_sort,
};
use crate::vecs::copy_of;

verus! {

/// A sparse feature vector, kept in the form the engine reads.
///
/// A vector that nobody has edited since it was built or last re-sorted is
/// in normal form.  Handing out the nodes for editing marks the vector
/// dirty; [`DataVec::resort`] brings a dirty vector back to normal form.
#[derive(Debug)]
pub struct DataVec {
    v: Vec<SvmNode>,
    is_sorted: bool,
}

impl std::ops::Deref for DataVec {
    type Target = Vec<SvmNode>;

    /// The nodes, for reading.
    fn deref(&self) -> (v: &Vec<SvmNode>)
        ensures
            v@ == self@,
    {
        &self.v
    }
}

impl std::ops::DerefMut for DataVec {
    /// The nodes, for editing.  The vector is dirty from here on, whatever
    /// the caller does with them.
    fn deref_mut(&mut self) -> (v: &mut Vec<SvmNode>)
        ensures
            v@ == old(self)@,
            final(self)@ == final(v)@,
            final(self).is_dirty(),
            final(self).wf(),
    {
        self.is_sorted = false;
        &mut self.v
    }
}

impl Clone for DataVec {
    fn clone(&self) -> (r: DataVec)
        ensures
            r@ == self@,
            r.is_dirty() == self.is_dirty(),
    {
        DataVec { v: copy_of(&self.v), is_sorted: self.is_sorted }
    }
}

impl View for DataVec {
    type V = Seq<SvmNode>;

    closed spec fn view(&self) -> Seq<SvmNode> {
        self.v@
    }
}

impl DataVec {
    /// The nodes were handed out for editing and not re-sorted since.
    pub closed spec fn is_dirty(&self) -> bool {
        !self.is_sorted
    }

    /// The vector keeps its promise: unless dirty, it is in normal form.
    pub open spec fn wf(&self) -> bool {
        !self.is_dirty() ==> is_normal(self@)
    }

    /// Builds the sparse vector of a dense one, such as `[3.0, 0, 0, 9.2]`.
    ///
    /// Entries that compare equal to zero are left out, and no others:
    /// values close to zero stay.  The node of entry `i` has index `i + 1`.
    pub fn from_dense(x: Vec<Double>) -> (d: DataVec)
        requires
            x.len() <= i32::MAX,
        ensures
            d.wf(),
            d@ == sparse_of_dense(x@),
            !d.is_dirty(),
    {
        let mut v: Vec<SvmNode> = Vec::new();
        let mut i: usize = 0;
        while i < x.len()
            invariant
                i <= x.len(),
                x.len() <= i32::MAX,
                v@ == dense_nodes(x@).take(i as int).filter(not_zero()),
            decreases x.len() - i,
        {
            let value = x[i];
            let node = SvmNode((i + 1) as i32, value);
            proof {
                let all = dense_nodes(x@);
                assert(all.take(i + 1) =~= all.take(i as int).push(node));
                all.take(i as int).lemma_filter_push(node, not_zero());
            }
            if !value.is_exact_zero() {
                v.push(node);
            }
            i += 1;
        }
        proof {
            assert(dense_nodes(x@).take(i as int) =~= dense_nodes(x@));
            lemma_sparse_of_dense_is_normal(x@);
        }
        v.push(SvmNode(SENTINEL_INDEX, Double::zero()));
        DataVec { v, is_sorted: true }
    }

    /// Marks the vector dirty: whoever changes the nodes by a way that the
    /// vector does not see says so here.
    pub fn mark_dirty(&mut self)
        ensures
            final(self)@ == old(self)@,
            final(self).is_dirty(),
            final(self).wf(),
    {
        self.is_sorted = false;
    }

    /// Whether the nodes were handed out for editing and not re-sorted
    /// since.
    pub fn needs_resort(&self) -> (r: bool)
        ensures
            r == self.is_dirty(),
    {
        !self.is_sorted
    }

    /// Builds a sparse vector from loose pairs, in any order, with or
    /// without a terminator.
    ///
    /// The features are sorted by index, those of equal index in the order
    /// given, and one terminator ends the result: the first that `x` holds,
    /// or a fresh one.  An index that is neither a feature index nor that of
    /// the terminator is refused, and the first of them reported.
    pub fn from_sparse(x: Vec<SvmNode>) -> (r: Result<DataVec, SvmError>)
        ensures
            r is Ok <==> all_valid(x@),
            r matches Ok(d) ==> d.wf() && d@ == normalized(x@) && !d.is_dirty(),
            r matches Err(e) ==> is_first_invalid(x@, e),
    {
        let mut x = x;
        match DataVec::sort(&mut x) {
            Ok(()) => Ok(DataVec { v: x, is_sorted: true }),
            Err(e) => Err(e),
        }
    }

    /// Brings a dirty vector back to normal form; leaves a clean one alone.
    ///
    /// Where the edited nodes hold an invalid index, the first of them is
    /// reported and the vector stays as it is, dirty.
    pub fn resort(&mut self) -> (r: Result<(), SvmError>)
        requires
            old(self).wf(),
        ensures
            final(self).wf(),
            !old(self).is_dirty() ==> r is Ok && *final(self) == *old(self),
            old(self).is_dirty() ==> (r is Ok <==> all_valid(old(self)@)),
            old(self).is_dirty() && r is Ok ==> final(self)@ == normalized(old(self)@),
            r is Ok ==> !final(self).is_dirty() && is_normal(final(self)@),
            r matches Err(e) ==> is_first_invalid(old(self)@, e) && *final(self) == *old(self),
    {
        if self.is_sorted {
            return Ok(());
        }
        match normal_form(&self.v) {
            Ok(sorted) => {
                proof {
                    lemma_normalized_is_normal(self.v@);
                }
                self.v = sorted;
                self.is_sorted = true;
                Ok(())
            },
            Err(e) => Err(e),
        }
    }

    /// Puts loose pairs into normal form, in place.
    ///
    /// On an invalid index the nodes stay as they are.
    pub fn sort(x: &mut Vec<SvmNode>) -> (r: Result<(), SvmError>)
        ensures
            r is Ok <==> all_valid(old(x)@),
            r is Ok ==> final(x)@ == normalized(old(x)@) && is_normal(final(x)@),
            r matches Err(e) ==> is_first_invalid(old(x)@, e) && final(x)@ == old(x)@,
    {
        match normal_form(x) {
            Ok(sorted) => {
                proof {
                    lemma_normalized_is_normal(x@);
                }
                *x = sorted;
                Ok(())
            },
            Err(e) => Err(e),
        }
    }
}

/// Computes the normal form of `x`, or reports its first invalid node.
fn normal_form(x: &Vec<SvmNode>) -> (r: Result<Vec<SvmNode>, SvmError>)
    ensures
        r is Ok <==> all_valid(x@),
        r matches Ok(v) ==> v@ == normalized(x@),
        r matches Err(e) ==> is_first_invalid(x@, e),
{
    let n = x.len();
    let mut kept: Vec<SvmNode> = Vec::with_capacity(n);
    let mut in_order = true;
    let mut last: Option<SvmNode> = None;
    let mut i: usize = 0;
    while i < n
        invariant
            i <= n,
            n == x.len(),
            all_valid(x@.take(i as int)),
            kept@ == features(x@.take(i as int)),
            in_order ==> is_ascending(kept@),
            last is Some <==> sentinels(x@.take(i as int)).len() > 0,
            last matches Some(t) ==> t == sentinels(x@.take(i as int))[0],
        decreases n - i,
    {
        let node = x[i];
        proof {
            let seen = x@.take(i as int);
            assert(x@.take(i + 1) =~= seen.push(node));
            seen.lemma_filter_push(node, not_sentinel());
            seen.lemma_filter_push(node, only_sentinel());
        }
        if node.0 == SENTINEL_INDEX {
            if last.is_none() {
                last = Some(node);
            }
        } else if node.0 < 1 {
            proof {
                assert(!x@[i as int].is_valid());
            }
            return Err(SvmError::InvalidIndex { position: i, index: node.0 });
        } else {
            if kept.len() > 0 && kept[kept.len() - 1].0 > node.0 {
                in_order = false;
            }
            proof {
                if in_order {
                    lemma_push_keeps_ascending(kept@, node);
                }
            }
            kept.push(node);
        }
        i += 1;
    }
    proof {
        assert(x@.take(i as int) =~= x@);
        assert(kept@.subrange(0, kept@.len() as int) =~= kept@);
        if in_order {
            lemma_sort_by_index_fixes_ascending(kept@);
        }
    }
    let mut sorted = if in_order {
        kept
    } else {
        merge_sort(&kept, 0, kept.len())
    };
    match last {
        Some(t) => sorted.push(t),
        None => sorted.push(SvmNode(SENTINEL_INDEX, Double::zero())),
    }
    Ok(sorted)
}

} // verus!
