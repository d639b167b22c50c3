//! Sorting nodes by index.
//!
//! [`sort_by_index`] says what the sorted sequence is; the lemmas say that
//! it is the stable sort and that there is no other; [`merge_sort`]
//! computes it.

use vstd::prelude::*;
use crate::node::SvmNode;

verus! {

/// The test that keeps the nodes whose index is `k`.
pub open spec fn with_index(k: int) -> spec_fn(SvmNode) -> bool {
    |n: SvmNode| n.0 == k
}

/// The indices of `s` never decrease from one node to the next.
pub open spec fn is_ascending(s: Seq<SvmNode>) -> bool {
    forall|i: int, j: int| 0 <= i <= j < s.len() ==> s[i].0 <= s[j].0
}

/// The indices of `s` strictly increase from one node to the next.
pub open spec fn is_strictly_ascending(s: Seq<SvmNode>) -> bool {
    forall|i: int, j: int| 0 <= i < j < s.len() ==> s[i].0 < s[j].0
}

/// No two nodes of `s` have the same index.
pub open spec fn has_distinct_indices(s: Seq<SvmNode>) -> bool {
    forall|i: int, j: int| 0 <= i < j < s.len() ==> s[i].0 != s[j].0
}

/// `s` with `e` put behind the last node whose index is not above that of
/// `e`.  On an ascending `s` the result is ascending again.
pub open spec fn insert_by_index(s: Seq<SvmNode>, e: SvmNode) -> Seq<SvmNode>
    decreases s.len(),
{
    if s.len() == 0 || s.last().0 <= e.0 {
        s.push(e)
    } else {
        insert_by_index(s.drop_last(), e).push(s.last())
    }
}

/// The nodes of `s` in ascending order of index; nodes of equal index keep
/// the order they have in `s`.
pub open spec fn sort_by_index(s: Seq<SvmNode>) -> Seq<SvmNode>
    decreases s.len(),
{
    if s.len() == 0 {
        s
    } else {
        insert_by_index(sort_by_index(s.drop_last()), s.last())
    }
}

/// A filter keeps a whole sequence whose nodes all pass it.
pub proof fn lemma_filter_keeps_all(s: Seq<SvmNode>, pred: spec_fn(SvmNode) -> bool)
    requires
        forall|i: int| 0 <= i < s.len() ==> pred(#[trigger] s[i]),
    ensures
        s.filter(pred) == s,
    decreases s.len(),
{
    reveal(Seq::filter);
    if s.len() > 0 {
        lemma_filter_keeps_all(s.drop_last(), pred);
        assert(s.drop_last().push(s.last()) =~= s);
    }
}

/// A filter keeps nothing of a sequence whose nodes all fail it.
pub proof fn lemma_filter_keeps_none(s: Seq<SvmNode>, pred: spec_fn(SvmNode) -> bool)
    requires
        forall|i: int| 0 <= i < s.len() ==> !pred(#[trigger] s[i]),
    ensures
        s.filter(pred) == Seq::<SvmNode>::empty(),
    decreases s.len(),
{
    reveal(Seq::filter);
    if s.len() > 0 {
        lemma_filter_keeps_none(s.drop_last(), pred);
    }
}

/// The place at which `insert_by_index` puts `e` into `s`.
spec fn insertion_point(s: Seq<SvmNode>, e: SvmNode) -> int
    decreases s.len(),
{
    if s.len() == 0 || s.last().0 <= e.0 {
        s.len() as int
    } else {
        insertion_point(s.drop_last(), e)
    }
}

/// Where `at` is the place behind the last node of `s` whose index is not
/// above that of `e`, putting `e` in by index puts it at `at`.
proof fn lemma_insert_by_index_at(s: Seq<SvmNode>, e: SvmNode, at: int)
    requires
        0 <= at <= s.len(),
        at == 0 || s[at - 1].0 <= e.0,
        forall|j: int| at <= j < s.len() ==> s[j].0 > e.0,
    ensures
        insert_by_index(s, e) == s.insert(at, e),
    decreases s.len(),
{
    if s.len() == 0 || at == s.len() {
        assert(s.push(e) =~= s.insert(at, e));
    } else {
        lemma_insert_by_index_at(s.drop_last(), e, at);
        assert(s.drop_last().insert(at, e).push(s.last()) =~= s.insert(at, e));
    }
}

/// Putting `e` in by index puts it at its insertion point: behind every
/// node whose index is not above that of `e`, before the others.
proof fn lemma_insertion_point(s: Seq<SvmNode>, e: SvmNode)
    ensures
        0 <= insertion_point(s, e) <= s.len(),
        insertion_point(s, e) == 0 || s[insertion_point(s, e) - 1].0 <= e.0,
        forall|j: int| insertion_point(s, e) <= j < s.len() ==> s[j].0 > e.0,
        insert_by_index(s, e) == s.insert(insertion_point(s, e), e),
    decreases s.len(),
{
    if !(s.len() == 0 || s.last().0 <= e.0) {
        let front = s.drop_last();
        lemma_insertion_point(front, e);
        assert forall|j: int| insertion_point(s, e) <= j < s.len() implies s[j].0 > e.0 by {
            if j < front.len() {
                assert(front[j] == s[j]);
            }
        }
    }
    lemma_insert_by_index_at(s, e, insertion_point(s, e));
}

/// Putting a node in by index keeps an ascending sequence ascending.
pub proof fn lemma_insert_keeps_ascending(s: Seq<SvmNode>, e: SvmNode)
    requires
        is_ascending(s),
    ensures
        is_ascending(insert_by_index(s, e)),
{
    lemma_insertion_point(s, e);
    let at = insertion_point(s, e);
    let r = s.insert(at, e);
    assert forall|i: int, j: int| 0 <= i <= j < r.len() implies r[i].0 <= r[j].0 by {
        if at > 0 {
            assert(forall|k: int| 0 <= k < at ==> (#[trigger] s[k]).0 <= s[at - 1].0);
        }
        if i < at && j > at {
            assert(r[i] == s[i] && r[j] == s[j - 1]);
        }
    }
}

/// Putting a node in by index adds that node and no other.
pub proof fn lemma_insert_adds_one(s: Seq<SvmNode>, e: SvmNode)
    ensures
        insert_by_index(s, e).to_multiset() == s.to_multiset().insert(e),
        insert_by_index(s, e).len() == s.len() + 1,
    decreases s.len(),
{
    broadcast use vstd::seq_lib::to_multiset_build;

    if s.len() == 0 || s.last().0 <= e.0 {
    } else {
        let front = s.drop_last();
        lemma_insert_adds_one(front, e);
        assert(front.push(s.last()) =~= s);
        assert(front.to_multiset().insert(e).insert(s.last()) =~= front.to_multiset().insert(
            s.last(),
        ).insert(e));
    }
}

/// Putting a node in by index keeps, for every index, the nodes of that
/// index in their order, with the new node behind those of its own index.
pub proof fn lemma_insert_keeps_order(s: Seq<SvmNode>, e: SvmNode, k: int)
    ensures
        insert_by_index(s, e).filter(with_index(k)) == (if e.0 == k {
            s.filter(with_index(k)).push(e)
        } else {
            s.filter(with_index(k))
        }),
    decreases s.len(),
{
    if s.len() == 0 || s.last().0 <= e.0 {
        s.lemma_filter_push(e, with_index(k));
    } else {
        let front = s.drop_last();
        lemma_insert_keeps_order(front, e, k);
        assert(front.push(s.last()) =~= s);
        front.lemma_filter_push(s.last(), with_index(k));
        insert_by_index(front, e).lemma_filter_push(s.last(), with_index(k));
    }
}

/// Sorting by index is a stable sort: the result ascends, holds each node
/// as often as the input does, and keeps nodes of equal index in the order
/// of the input.
pub proof fn lemma_sort_by_index_is_stable(s: Seq<SvmNode>)
    ensures
        is_ascending(sort_by_index(s)),
        sort_by_index(s).to_multiset() == s.to_multiset(),
        sort_by_index(s).len() == s.len(),
        forall|k: int| #[trigger]
            sort_by_index(s).filter(with_index(k)) == s.filter(with_index(k)),
    decreases s.len(),
{
    broadcast use vstd::seq_lib::to_multiset_build;

    if s.len() > 0 {
        let front = s.drop_last();
        let sorted = sort_by_index(front);
        lemma_sort_by_index_is_stable(front);
        lemma_insert_keeps_ascending(sorted, s.last());
        lemma_insert_adds_one(sorted, s.last());
        assert(front.push(s.last()) =~= s);
        assert forall|k: int| #[trigger]
            sort_by_index(s).filter(with_index(k)) == s.filter(with_index(k)) by {
            lemma_insert_keeps_order(sorted, s.last(), k);
            front.lemma_filter_push(s.last(), with_index(k));
            assert(sorted.filter(with_index(k)) == front.filter(with_index(k)));
        }
    }
}

/// Sorting leaves an ascending sequence as it is.
pub proof fn lemma_sort_by_index_fixes_ascending(s: Seq<SvmNode>)
    requires
        is_ascending(s),
    ensures
        sort_by_index(s) == s,
    decreases s.len(),
{
    if s.len() > 0 {
        let front = s.drop_last();
        lemma_sort_by_index_fixes_ascending(front);
        assert(front.push(s.last()) =~= s);
    }
}

/// The last node of a sequence is the last of the nodes of its index.
proof fn lemma_last_of_its_index(s: Seq<SvmNode>)
    requires
        s.len() > 0,
    ensures
        s.filter(with_index(s.last().0 as int)).len() > 0,
        s.filter(with_index(s.last().0 as int)).last() == s.last(),
{
    let front = s.drop_last();
    assert(front.push(s.last()) =~= s);
    front.lemma_filter_push(s.last(), with_index(s.last().0 as int));
}

/// A sequence that holds a node of index `k` behind a filter holds one.
proof fn lemma_index_occurs(s: Seq<SvmNode>, k: int) -> (i: int)
    requires
        s.filter(with_index(k)).len() > 0,
    ensures
        0 <= i < s.len(),
        s[i].0 == k,
{
    let kept = s.filter(with_index(k));
    s.lemma_filter_pred(with_index(k), 0);
    s.lemma_filter_contains_rev(with_index(k), kept[0]);
    assert(kept.contains(kept[0]));
    choose|i: int| 0 <= i < s.len() && s[i] == kept[0]
}

/// There is only one stable sort: two ascending sequences that hold, for
/// every index, the same nodes in the same order, are equal.
pub proof fn lemma_stable_sort_is_unique(a: Seq<SvmNode>, b: Seq<SvmNode>)
    requires
        is_ascending(a),
        is_ascending(b),
        forall|k: int| #[trigger] a.filter(with_index(k)) == b.filter(with_index(k)),
    ensures
        a == b,
    decreases a.len(),
{
    if a.len() == 0 {
        if b.len() > 0 {
            lemma_last_of_its_index(b);
            a.lemma_filter_len(with_index(b.last().0 as int));
        }
        assert(a =~= b);
    } else {
        lemma_last_of_its_index(a);
        let m = a.last().0 as int;
        assert(b.filter(with_index(m)).len() > 0);
        let j = lemma_index_occurs(b, m);
        lemma_last_of_its_index(b);
        let n = b.last().0 as int;
        assert(a.filter(with_index(n)).len() > 0);
        let i = lemma_index_occurs(a, n);
        assert(m == n);
        assert(a.last() == b.last());
        let a_front = a.drop_last();
        let b_front = b.drop_last();
        assert(a_front.push(a.last()) =~= a);
        assert(b_front.push(b.last()) =~= b);
        assert forall|k: int| #[trigger]
            a_front.filter(with_index(k)) == b_front.filter(with_index(k)) by {
            a_front.lemma_filter_push(a.last(), with_index(k));
            b_front.lemma_filter_push(b.last(), with_index(k));
            assert(a.filter(with_index(k)) == b.filter(with_index(k)));
            if k == m {
                let x = a_front.filter(with_index(k));
                let y = b_front.filter(with_index(k));
                assert(x.push(a.last()).drop_last() =~= x);
                assert(y.push(b.last()).drop_last() =~= y);
            }
        }
        lemma_stable_sort_is_unique(a_front, b_front);
    }
}

/// Sorting by index is the stable sort: whatever ascends and holds, for
/// every index, the nodes of `s` in the order of `s`, is the sorted `s`.
pub proof fn lemma_sort_by_index_is_the_stable_sort(s: Seq<SvmNode>, r: Seq<SvmNode>)
    requires
        is_ascending(r),
        forall|k: int| #[trigger] r.filter(with_index(k)) == s.filter(with_index(k)),
    ensures
        r == sort_by_index(s),
{
    lemma_sort_by_index_is_stable(s);
    lemma_stable_sort_is_unique(r, sort_by_index(s));
}

/// The sorted sequence depends only on what `s` holds of each index, in
/// its order: two sequences that agree on that sort to the same.
pub proof fn lemma_sort_by_index_reads_each_index(s: Seq<SvmNode>, t: Seq<SvmNode>)
    requires
        forall|k: int| #[trigger] s.filter(with_index(k)) == t.filter(with_index(k)),
    ensures
        sort_by_index(s) == sort_by_index(t),
{
    lemma_sort_by_index_is_stable(s);
    lemma_sort_by_index_is_stable(t);
    assert forall|k: int| #[trigger]
        sort_by_index(s).filter(with_index(k)) == sort_by_index(t).filter(with_index(k)) by {
        assert(s.filter(with_index(k)) == t.filter(with_index(k)));
    }
    lemma_stable_sort_is_unique(sort_by_index(s), sort_by_index(t));
}

/// Among nodes of distinct indices, a node is all there is of its index.
proof fn lemma_alone_of_its_index(s: Seq<SvmNode>, i: int)
    requires
        has_distinct_indices(s),
        0 <= i < s.len(),
    ensures
        s.filter(with_index(s[i].0 as int)) == seq![s[i]],
    decreases s.len(),
{
    let k = s[i].0 as int;
    let front = s.drop_last();
    assert(front.push(s.last()) =~= s);
    front.lemma_filter_push(s.last(), with_index(k));
    if i == s.len() - 1 {
        assert forall|j: int| 0 <= j < front.len() implies !with_index(k)(#[trigger] front[j]) by {
            assert(front[j] == s[j]);
        }
        lemma_filter_keeps_none(front, with_index(k));
        assert(Seq::<SvmNode>::empty().push(s[i]) =~= seq![s[i]]);
    } else {
        assert(front[i] == s[i]);
        assert(has_distinct_indices(front)) by {
            assert forall|a: int, b: int| 0 <= a < b < front.len() implies front[a].0
                != front[b].0 by {
                assert(front[a] == s[a] && front[b] == s[b]);
            }
        }
        lemma_alone_of_its_index(front, i);
    }
}

/// Nodes of distinct indices, put in another order, are nodes of distinct
/// indices.
proof fn lemma_distinct_indices_of_rearranged(s: Seq<SvmNode>, t: Seq<SvmNode>)
    requires
        has_distinct_indices(s),
        s.to_multiset() == t.to_multiset(),
    ensures
        has_distinct_indices(t),
{
    s.to_multiset_ensures();
    t.to_multiset_ensures();
    assert(s.no_duplicates()) by {
        assert forall|i: int, j: int| 0 <= i < s.len() && 0 <= j < s.len() && i != j implies s[i]
            != s[j] by {
            if i < j {
                assert(s[i].0 != s[j].0);
            } else {
                assert(s[j].0 != s[i].0);
            }
        }
    }
    s.lemma_multiset_has_no_duplicates();
    t.lemma_multiset_has_no_duplicates_conv();
    assert forall|i: int, j: int| 0 <= i < j < t.len() implies t[i].0 != t[j].0 by {
        assert(t.contains(t[i]));
        assert(t.contains(t[j]));
        assert(s.to_multiset().count(t[i]) > 0);
        assert(s.to_multiset().count(t[j]) > 0);
        let p = choose|p: int| 0 <= p < s.len() && s[p] == t[i];
        let q = choose|q: int| 0 <= q < s.len() && s[q] == t[j];
        assert(t[i] != t[j]);
        if p < q {
            assert(s[p].0 != s[q].0);
        } else {
            assert(s[q].0 != s[p].0);
        }
    }
}

/// The order of the input does not matter: nodes of distinct indices sort
/// to the same sequence in whatever order they come.
pub proof fn lemma_sort_by_index_ignores_order(s: Seq<SvmNode>, t: Seq<SvmNode>)
    requires
        has_distinct_indices(s),
        s.to_multiset() == t.to_multiset(),
    ensures
        sort_by_index(s) == sort_by_index(t),
{
    lemma_distinct_indices_of_rearranged(s, t);
    s.to_multiset_ensures();
    t.to_multiset_ensures();
    assert forall|k: int| #[trigger] s.filter(with_index(k)) == t.filter(with_index(k)) by {
        if exists|i: int| 0 <= i < s.len() && s[i].0 == k {
            let i = choose|i: int| 0 <= i < s.len() && s[i].0 == k;
            assert(s.contains(s[i]));
            assert(t.to_multiset().count(s[i]) > 0);
            let j = choose|j: int| 0 <= j < t.len() && t[j] == s[i];
            lemma_alone_of_its_index(s, i);
            lemma_alone_of_its_index(t, j);
        } else {
            assert forall|j: int| 0 <= j < t.len() implies !with_index(k)(#[trigger] t[j]) by {
                if t[j].0 == k {
                    assert(t.contains(t[j]));
                    assert(s.to_multiset().count(t[j]) > 0);
                    let p = choose|p: int| 0 <= p < s.len() && s[p] == t[j];
                    assert(s[p].0 == k);
                }
            }
            lemma_filter_keeps_none(s, with_index(k));
            lemma_filter_keeps_none(t, with_index(k));
        }
    }
    lemma_sort_by_index_reads_each_index(s, t);
}

/// A node of the sorted sequence is a node of the input.
pub proof fn lemma_sorted_node_is_input_node(s: Seq<SvmNode>, i: int)
    requires
        0 <= i < sort_by_index(s).len(),
    ensures
        s.contains(sort_by_index(s)[i]),
{
    lemma_sort_by_index_is_stable(s);
    let sorted = sort_by_index(s);
    sorted.to_multiset_ensures();
    s.to_multiset_ensures();
    assert(sorted.contains(sorted[i]));
    assert(s.to_multiset().count(sorted[i]) > 0);
}

/// An ascending sequence stays ascending with a node at its end whose index
/// is not below that of the last.
pub proof fn lemma_push_keeps_ascending(s: Seq<SvmNode>, e: SvmNode)
    requires
        is_ascending(s),
        s.len() > 0 ==> s.last().0 <= e.0,
    ensures
        is_ascending(s.push(e)),
{
    let r = s.push(e);
    assert forall|i: int, j: int| 0 <= i <= j < r.len() implies r[i].0 <= r[j].0 by {
        if j == s.len() && i < s.len() {
            assert(s[i].0 <= s.last().0);
        }
    }
}

/// Merges two ascending runs into one.  Of nodes with the same index those
/// of `a` come before those of `b`.
pub fn merge(a: &Vec<SvmNode>, b: &Vec<SvmNode>) -> (r: Vec<SvmNode>)
    requires
        is_ascending(a@),
        is_ascending(b@),
    ensures
        r@ == sort_by_index(a@ + b@),
{
    let mut out: Vec<SvmNode> = Vec::new();
    let mut i: usize = 0;
    let mut j: usize = 0;
    proof {
        assert forall|k: int| #[trigger]
            out@.filter(with_index(k)) == a@.take(0).filter(with_index(k)) + b@.take(0).filter(
                with_index(k),
            ) by {
            lemma_filter_keeps_none(out@, with_index(k));
            lemma_filter_keeps_none(a@.take(0), with_index(k));
            lemma_filter_keeps_none(b@.take(0), with_index(k));
        }
    }
    while i < a.len() || j < b.len()
        invariant
            i <= a.len(),
            j <= b.len(),
            is_ascending(a@),
            is_ascending(b@),
            is_ascending(out@),
            out@.len() > 0 && i < a.len() ==> out@.last().0 <= a@[i as int].0,
            out@.len() > 0 && j < b.len() ==> out@.last().0 <= b@[j as int].0,
            i < a.len() ==> forall|m: int| 0 <= m < j ==> (#[trigger] b@[m]).0 < a@[i as int].0,
            forall|k: int| #[trigger]
                out@.filter(with_index(k)) == a@.take(i as int).filter(with_index(k)) + b@.take(
                    j as int,
                ).filter(with_index(k)),
        decreases a.len() - i + b.len() - j,
    {
        let ghost before = out@;
        let ghost a_seen = a@.take(i as int);
        let ghost b_seen = b@.take(j as int);
        if i < a.len() && (j >= b.len() || a[i].0 <= b[j].0) {
            let node = a[i];
            proof {
                lemma_push_keeps_ascending(before, node);
                assert(a@.take(i + 1) =~= a_seen.push(node));
                assert forall|k: int| #[trigger]
                    before.push(node).filter(with_index(k)) == a_seen.push(node).filter(
                        with_index(k),
                    ) + b_seen.filter(with_index(k)) by {
                    before.lemma_filter_push(node, with_index(k));
                    a_seen.lemma_filter_push(node, with_index(k));
                    assert(before.filter(with_index(k)) == a_seen.filter(with_index(k))
                        + b_seen.filter(with_index(k)));
                    if node.0 == k {
                        lemma_filter_keeps_none(b_seen, with_index(k));
                        assert(a_seen.filter(with_index(k)).push(node) + Seq::<SvmNode>::empty()
                            =~= (a_seen.filter(with_index(k)) + Seq::<SvmNode>::empty()).push(
                            node,
                        ));
                    }
                }
            }
            out.push(node);
            i += 1;
        } else {
            let node = b[j];
            proof {
                lemma_push_keeps_ascending(before, node);
                assert(b@.take(j + 1) =~= b_seen.push(node));
                assert forall|k: int| #[trigger]
                    before.push(node).filter(with_index(k)) == a_seen.filter(with_index(k))
                        + b_seen.push(node).filter(with_index(k)) by {
                    before.lemma_filter_push(node, with_index(k));
                    b_seen.lemma_filter_push(node, with_index(k));
                    assert(before.filter(with_index(k)) == a_seen.filter(with_index(k))
                        + b_seen.filter(with_index(k)));
                    if node.0 == k {
                        assert((a_seen.filter(with_index(k)) + b_seen.filter(with_index(k))).push(
                            node,
                        ) =~= a_seen.filter(with_index(k)) + b_seen.filter(with_index(k)).push(
                            node,
                        ));
                    }
                }
            }
            out.push(node);
            j += 1;
        }
    }
    proof {
        assert(a@.take(i as int) =~= a@);
        assert(b@.take(j as int) =~= b@);
        assert forall|k: int| #[trigger]
            out@.filter(with_index(k)) == (a@ + b@).filter(with_index(k)) by {
            Seq::filter_distributes_over_add(a@, b@, with_index(k));
            assert(out@.filter(with_index(k)) == a@.take(i as int).filter(with_index(k)) + b@.take(
                j as int,
            ).filter(with_index(k)));
        }
        lemma_sort_by_index_is_the_stable_sort(a@ + b@, out@);
    }
    out
}

/// Sorting the two halves of a sequence and then the whole is sorting the
/// whole.
proof fn lemma_sort_of_sorted_halves(left: Seq<SvmNode>, right: Seq<SvmNode>)
    ensures
        sort_by_index(sort_by_index(left) + sort_by_index(right)) == sort_by_index(left + right),
{
    lemma_sort_by_index_is_stable(left);
    lemma_sort_by_index_is_stable(right);
    let halves = sort_by_index(left) + sort_by_index(right);
    assert forall|k: int| #[trigger]
        halves.filter(with_index(k)) == (left + right).filter(with_index(k)) by {
        Seq::filter_distributes_over_add(
            sort_by_index(left),
            sort_by_index(right),
            with_index(k),
        );
        Seq::filter_distributes_over_add(left, right, with_index(k));
        assert(sort_by_index(left).filter(with_index(k)) == left.filter(with_index(k)));
        assert(sort_by_index(right).filter(with_index(k)) == right.filter(with_index(k)));
    }
    lemma_sort_by_index_reads_each_index(halves, left + right);
}

/// Sorts the nodes of `v` from `lo` up to `hi` by index; nodes of equal
/// index keep their order.
pub fn merge_sort(v: &Vec<SvmNode>, lo: usize, hi: usize) -> (r: Vec<SvmNode>)
    requires
        lo <= hi <= v.len(),
    ensures
        r@ == sort_by_index(v@.subrange(lo as int, hi as int)),
    decreases hi - lo,
{
    let ghost part = v@.subrange(lo as int, hi as int);
    if hi - lo < 2 {
        let mut r: Vec<SvmNode> = Vec::new();
        if hi - lo == 1 {
            r.push(v[lo]);
        }
        proof {
            assert(r@ =~= part);
            assert(is_ascending(part));
            lemma_sort_by_index_fixes_ascending(part);
        }
        return r;
    }
    let mid = lo + (hi - lo) / 2;
    let left = merge_sort(v, lo, mid);
    let right = merge_sort(v, mid, hi);
    proof {
        let l = v@.subrange(lo as int, mid as int);
        let r = v@.subrange(mid as int, hi as int);
        assert(l + r =~= part);
        lemma_sort_by_index_is_stable(l);
        lemma_sort_by_index_is_stable(r);
        lemma_sort_of_sorted_halves(l, r);
    }
    merge(&left, &right)
}

} // verus!
