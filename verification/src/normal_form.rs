//! The normal form of a sparse vector, and what holds of it.
//!
//! The normal form of a sequence of nodes has the features of the sequence
//! in ascending order of index, those of equal index in their first order,
//! followed by one terminator.  The functions that build and repair a
//! [`crate::datavec::DataVec`] promise this form; the lemmas here say what
//! it is worth.

use vstd::prelude::*;
use crate::double::Double;
use crate::error::SvmError;
use crate::node::{sentinel, SvmNode};
use crate::sort::{
    has_distinct_indices, is_ascending, is_strictly_ascending, lemma_filter_keeps_all,
    lemma_filter_keeps_none, lemma_sort_by_index_fixes_ascending,
    lemma_sort_by_index_ignores_order, lemma_sort_by_index_is_stable,
    lemma_sorted_node_is_input_node, sort_by_index,
};

verus! {

/// Every node of `s` may stand in a sparse vector.
pub open spec fn all_valid(s: Seq<SvmNode>) -> bool {
    forall|i: int| 0 <= i < s.len() ==> (#[trigger] s[i]).is_valid()
}

/// The test that keeps every node but the terminators.
pub open spec fn not_sentinel() -> spec_fn(SvmNode) -> bool {
    |n: SvmNode| !n.is_sentinel()
}

/// The test that keeps the terminators.
pub open spec fn only_sentinel() -> spec_fn(SvmNode) -> bool {
    |n: SvmNode| n.is_sentinel()
}

/// The test that keeps the nodes whose value is not a zero.
pub open spec fn not_zero() -> spec_fn(SvmNode) -> bool {
    |n: SvmNode| !n.1.is_zero()
}

/// The nodes of `s` that are not terminators, in the order `s` has them.
pub open spec fn features(s: Seq<SvmNode>) -> Seq<SvmNode> {
    s.filter(not_sentinel())
}

/// The terminators of `s`, in the order `s` has them.
pub open spec fn sentinels(s: Seq<SvmNode>) -> Seq<SvmNode> {
    s.filter(only_sentinel())
}

/// The node that ends the normal form of `s`: the first terminator of `s`,
/// or a fresh one where `s` has none.
pub open spec fn terminator(s: Seq<SvmNode>) -> SvmNode {
    if sentinels(s).len() > 0 {
        sentinels(s)[0]
    } else {
        sentinel()
    }
}

/// `s` is in the form the engine reads: features with ascending indices,
/// then exactly one terminator, which is the last node.
pub open spec fn is_normal(s: Seq<SvmNode>) -> bool {
    &&& s.len() >= 1
    &&& s.last().is_sentinel()
    &&& forall|i: int| 0 <= i < s.len() - 1 ==> (#[trigger] s[i]).is_feature()
    &&& is_ascending(s.drop_last())
}

/// The normal form of `s`: its features sorted by index, then one terminator.
pub open spec fn normalized(s: Seq<SvmNode>) -> Seq<SvmNode> {
    sort_by_index(features(s)).push(terminator(s))
}

/// The node that a dense vector's entry `i` becomes: indices count from one.
pub open spec fn dense_node(values: Seq<Double>, i: int) -> SvmNode {
    SvmNode((i + 1) as i32, values[i])
}

/// A dense vector with each entry turned into its node, zeros included.
pub open spec fn dense_nodes(values: Seq<Double>) -> Seq<SvmNode> {
    Seq::new(values.len(), |i: int| dense_node(values, i))
}

/// `node` is the node of an entry of the dense vector that is not a zero.
pub open spec fn is_node_of_nonzero(values: Seq<Double>, node: SvmNode) -> bool {
    &&& 1 <= node.0 <= values.len()
    &&& node.1 == values[node.0 - 1]
    &&& !node.1.is_zero()
}

/// The sparse encoding of a dense vector: one node for each entry that is
/// not a zero, in the order of the entries, then the terminator.
pub open spec fn sparse_of_dense(values: Seq<Double>) -> Seq<SvmNode> {
    dense_nodes(values).filter(not_zero()).push(sentinel())
}

/// `e` reports the first invalid node of `s`: where it stands and the index
/// it holds.
pub open spec fn is_first_invalid(s: Seq<SvmNode>, e: SvmError) -> bool {
    &&& e matches SvmError::InvalidIndex { position, index }
    &&& 0 <= position < s.len()
    &&& !s[position as int].is_valid()
    &&& index == s[position as int].0
    &&& all_valid(s.take(position as int))
}

/// The nodes kept from the first `n` entries of a dense vector have indices
/// between one and `n` that strictly increase.
proof fn lemma_dense_prefix_kept(values: Seq<Double>, n: int)
    requires
        0 <= n <= values.len() <= i32::MAX,
    ensures
        is_strictly_ascending(dense_nodes(values).take(n).filter(not_zero())),
        forall|i: int|
            0 <= i < dense_nodes(values).take(n).filter(not_zero()).len() ==> 1 <= (
            #[trigger] dense_nodes(values).take(n).filter(not_zero())[i]).0 <= n,
    decreases n,
{
    let all = dense_nodes(values);
    if n == 0 {
        assert(all.take(0).filter(not_zero()) =~= Seq::<SvmNode>::empty()) by {
            all.take(0).lemma_filter_len(not_zero());
        }
    } else {
        lemma_dense_prefix_kept(values, n - 1);
        let node = all[n - 1];
        assert(all.take(n) =~= all.take(n - 1).push(node));
        all.take(n - 1).lemma_filter_push(node, not_zero());
    }
}

/// What `from_dense` builds is in normal form, with strictly increasing
/// indices: no feature occurs twice.
pub proof fn lemma_sparse_of_dense_is_normal(values: Seq<Double>)
    requires
        values.len() <= i32::MAX,
    ensures
        is_normal(sparse_of_dense(values)),
        is_strictly_ascending(sparse_of_dense(values).drop_last()),
{
    let kept = dense_nodes(values).filter(not_zero());
    lemma_dense_prefix_kept(values, values.len() as int);
    assert(dense_nodes(values).take(values.len() as int) =~= dense_nodes(values));
    assert(sparse_of_dense(values).drop_last() =~= kept);
}

/// What `from_dense` builds holds the entries that are not zeros, and
/// nothing else before its terminator: every node is the node of such an
/// entry, and every such entry has its node.  With the strictly increasing
/// indices this makes one node for each.
pub proof fn lemma_sparse_of_dense_holds_the_nonzeros(values: Seq<Double>)
    requires
        values.len() <= i32::MAX,
    ensures
        forall|j: int|
            0 <= j < sparse_of_dense(values).len() - 1 ==> is_node_of_nonzero(
                values,
                #[trigger] sparse_of_dense(values)[j],
            ),
        forall|i: int|
            0 <= i < values.len() && !(#[trigger] values[i]).is_zero() ==> sparse_of_dense(
                values,
            ).drop_last().contains(dense_node(values, i)),
{
    let all = dense_nodes(values);
    let kept = all.filter(not_zero());
    let built = sparse_of_dense(values);
    assert(built.drop_last() =~= kept);
    assert forall|j: int| 0 <= j < built.len() - 1 implies is_node_of_nonzero(
        values,
        #[trigger] built[j],
    ) by {
        assert(built[j] == kept[j]);
        all.lemma_filter_pred(not_zero(), j);
        all.lemma_filter_contains_rev(not_zero(), kept[j]);
        assert(kept.contains(kept[j]));
        let i = choose|i: int| 0 <= i < all.len() && all[i] == kept[j];
        assert(all[i] == dense_node(values, i));
    }
    assert forall|i: int| 0 <= i < values.len() && !(#[trigger] values[i]).is_zero() implies kept
        .contains(dense_node(values, i)) by {
        assert(all[i] == dense_node(values, i));
        all.lemma_filter_contains(not_zero(), i);
    }
}

/// The sorted features of any sequence are features still.
proof fn lemma_sorted_features(s: Seq<SvmNode>)
    ensures
        forall|i: int|
            0 <= i < sort_by_index(features(s)).len() ==> !(#[trigger] sort_by_index(
                features(s),
            )[i]).is_sentinel(),
        all_valid(s) ==> forall|i: int|
            0 <= i < sort_by_index(features(s)).len() ==> (#[trigger] sort_by_index(
                features(s),
            )[i]).is_feature(),
{
    let kept = features(s);
    let sorted = sort_by_index(kept);
    assert forall|i: int| 0 <= i < sorted.len() implies !(#[trigger] sorted[i]).is_sentinel() && (
    all_valid(s) ==> sorted[i].is_feature()) by {
        lemma_sorted_node_is_input_node(kept, i);
        let j = choose|j: int| 0 <= j < kept.len() && kept[j] == sorted[i];
        s.lemma_filter_pred(not_sentinel(), j);
        s.lemma_filter_contains_rev(not_sentinel(), kept[j]);
    }
}

/// The terminator of any sequence is a terminator.
proof fn lemma_terminator_is_sentinel(s: Seq<SvmNode>)
    ensures
        terminator(s).is_sentinel(),
{
    if sentinels(s).len() > 0 {
        s.lemma_filter_pred(only_sentinel(), 0);
    }
}

/// The normal form of valid nodes is in normal form: ascending features,
/// then exactly one terminator, whatever the order of the input.
pub proof fn lemma_normalized_is_normal(s: Seq<SvmNode>)
    requires
        all_valid(s),
    ensures
        is_normal(normalized(s)),
{
    let sorted = sort_by_index(features(s));
    lemma_sort_by_index_is_stable(features(s));
    lemma_sorted_features(s);
    lemma_terminator_is_sentinel(s);
    assert(normalized(s).drop_last() =~= sorted);
}

/// The normal form holds each feature of the input as often as the input
/// does, and no other.
pub proof fn lemma_normalized_keeps_features(s: Seq<SvmNode>)
    ensures
        features(normalized(s)) == sort_by_index(features(s)),
        features(normalized(s)).to_multiset() == features(s).to_multiset(),
        sentinels(normalized(s)) == seq![terminator(s)],
{
    let sorted = sort_by_index(features(s));
    lemma_sort_by_index_is_stable(features(s));
    lemma_sorted_features(s);
    lemma_terminator_is_sentinel(s);
    lemma_filter_keeps_all(sorted, not_sentinel());
    lemma_filter_keeps_none(sorted, only_sentinel());
    sorted.lemma_filter_push(terminator(s), not_sentinel());
    sorted.lemma_filter_push(terminator(s), only_sentinel());
    assert(Seq::<SvmNode>::empty().push(terminator(s)) =~= seq![terminator(s)]);
}

/// A sequence in normal form is its own normal form.
pub proof fn lemma_normal_is_fixed(s: Seq<SvmNode>)
    requires
        is_normal(s),
    ensures
        normalized(s) == s,
{
    let front = s.drop_last();
    assert(front.push(s.last()) =~= s);
    lemma_filter_keeps_all(front, not_sentinel());
    lemma_filter_keeps_none(front, only_sentinel());
    front.lemma_filter_push(s.last(), not_sentinel());
    front.lemma_filter_push(s.last(), only_sentinel());
    lemma_sort_by_index_fixes_ascending(front);
    assert(Seq::<SvmNode>::empty().push(s.last())[0] == s.last());
}

/// Re-sorting is idempotent: the normal form of a normal form is that
/// normal form, for any input.
pub proof fn lemma_normalized_idempotent(s: Seq<SvmNode>)
    ensures
        normalized(normalized(s)) == normalized(s),
{
    let sorted = sort_by_index(features(s));
    lemma_normalized_keeps_features(s);
    lemma_sort_by_index_is_stable(features(s));
    lemma_sort_by_index_fixes_ascending(sorted);
}

/// The order of the input does not matter to the normal form: two inputs
/// with the same features, no index twice, and the same first terminator
/// have the same normal form.
pub proof fn lemma_normalized_ignores_order(s: Seq<SvmNode>, t: Seq<SvmNode>)
    requires
        has_distinct_indices(features(s)),
        features(s).to_multiset() == features(t).to_multiset(),
        terminator(s) == terminator(t),
    ensures
        normalized(s) == normalized(t),
{
    lemma_sort_by_index_ignores_order(features(s), features(t));
}

} // verus!
