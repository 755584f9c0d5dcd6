//! Consumer theory: preferences over bounded bundles of goods, indifference
//! curves and Marshallian demand.
use vstd::prelude::*;

pub mod indifference;
pub mod marshallian;
pub mod pref;

verus! {

/// Which index argument of a request named a good.
#[derive(Clone, Copy, Debug, PartialEq, Eq, Structural)]
pub enum GoodArg {
    /// The single good of a marginal-utility request (`good`).
    Good,
    /// The first good of a pair (`good_i`).
    GoodI,
    /// The second good of a pair (`good_j`).
    GoodJ,
}

/// A copy of `v`.
pub(crate) fn copy_vec<T: Copy>(v: &Vec<T>) -> (r: Vec<T>)
    ensures
        r@ == v@,
{
    let mut r: Vec<T> = Vec::new();
    let n = v.len();
    for k in 0..n
        invariant
            n == v.len(),
            r@ == v@.take(k as int),
    {
        r.push(v[k]);
        assert(v@.take(k as int).push(v@[k as int]) =~= v@.take(k + 1));
    }
    assert(v@.take(n as int) =~= v@);
    r
}

/// A copy of `v` whose entry at `d` is replaced by `x`.
pub(crate) fn copy_with<T: Copy>(v: &Vec<T>, d: usize, x: T) -> (r: Vec<T>)
    requires
        d < v.len(),
    ensures
        r@ == v@.update(d as int, x),
{
    let mut r = copy_vec(v);
    r.set(d, x);
    r
}

} // verus!
