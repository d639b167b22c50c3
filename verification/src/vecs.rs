//! Small things about vectors: the contents of one that may be absent, and
//! a copy with its contents stated.

use vstd::prelude::*;

verus! {

/// The contents of a vector that may be absent: `None` stays `None`.
pub open spec fn optional_view<T>(a: Option<Vec<T>>) -> Option<Seq<T>> {
    match a {
        Some(v) => Some(v@),
        None => None,
    }
}

/// A new vector with the items of `v`.
pub fn copy_of<T: Copy>(v: &Vec<T>) -> (r: Vec<T>)
    ensures
        r@ == v@,
{
    let mut r: Vec<T> = Vec::with_capacity(v.len());
    let mut i: usize = 0;
    while i < v.len()
        invariant
            i <= v.len(),
            r@ == v@.take(i as int),
        decreases v.len() - i,
    {
        r.push(v[i]);
        assert(v@.take(i + 1) =~= v@.take(i as int).push(v@[i as int]));
        i += 1;
    }
    assert(v@.take(i as int) =~= v@);
    r
}

} // verus!
