//! Checks on a preference's bounds and the sample points on which its
//! rationality axioms are tested.
use vstd::prelude::*;

use super::{copy_vec, copy_with};

verus! {

/// Why a preference's bounds were refused.
#[derive(Clone, Copy, Debug, PartialEq, Eq, Structural)]
pub enum BoundsError {
    /// The bound vectors are empty or of different lengths.
    Shape,
    /// Some minimum bound exceeds the maximum bound of the same good.
    Inverted,
}

/// The length check made on a preference's bounds before anything else:
/// they must be non-empty and of the same length.
pub fn check_bounds_shape(min_len: usize, max_len: usize) -> (r: Result<(), BoundsError>)
    ensures
        r is Ok <==> (min_len > 0 && min_len == max_len),
        r is Err ==> r == Err::<(), BoundsError>(BoundsError::Shape),
{
    if min_len == 0 || min_len != max_len {
        Err(BoundsError::Shape)
    } else {
        Ok(())
    }
}

/// The point of the box that is at its minimum in every good except `d`,
/// which is at its maximum.
pub open spec fn one_high<T>(lo: Seq<T>, hi: Seq<T>, d: int) -> Seq<T> {
    lo.update(d, hi[d])
}

/// The point of the box that is at its maximum in every good except `d`,
/// which is at its minimum.
pub open spec fn one_low<T>(lo: Seq<T>, hi: Seq<T>, d: int) -> Seq<T> {
    hi.update(d, lo[d])
}

/// The deterministic points on which the rationality axioms are checked, in
/// order: the midpoint of the box, the all-minimum point, the all-maximum
/// point, for each good the point with only that good at its maximum, and
/// (with more than one good) for each good the point with only that good at
/// its minimum.
pub open spec fn boundary_plan<T>(mid: Seq<T>, lo: Seq<T>, hi: Seq<T>) -> Seq<Seq<T>> {
    let n = lo.len();
    seq![mid, lo, hi] + Seq::new(n, |d: int| one_high(lo, hi, d)) + if n > 1 {
        Seq::new(n, |d: int| one_low(lo, hi, d))
    } else {
        Seq::<Seq<T>>::empty()
    }
}

/// Number of deterministic points for a box of `n` goods.
pub open spec fn boundary_count(n: nat) -> nat {
    if n > 1 { 3 + 2 * n } else { 3 + n }
}

/// The views of a vector of points.
pub open spec fn points_view<T>(pts: Seq<Vec<T>>) -> Seq<Seq<T>> {
    pts.map_values(|p: Vec<T>| p@)
}

/// Builds the deterministic sample points (see `boundary_plan`) from the
/// midpoint and the two bounds of the box.
pub fn boundary_points<T: Copy>(mid: &Vec<T>, lo: &Vec<T>, hi: &Vec<T>) -> (pts: Vec<Vec<T>>)
    requires
        lo.len() == hi.len(),
    ensures
        points_view(pts@) == boundary_plan(mid@, lo@, hi@),
        pts@.len() == 3 + lo@.len() + (if lo@.len() > 1 { lo@.len() } else { 0 }),
        pts@[0]@ == mid@,
        pts@[1]@ == lo@,
        pts@[2]@ == hi@,
        forall|i: int|
            #![trigger pts@[i]]
            3 <= i < 3 + lo@.len() ==> pts@[i]@ == lo@.update(i - 3, hi@[i - 3]),
        lo@.len() > 1 ==> forall|i: int|
            #![trigger pts@[i]]
            3 + lo@.len() <= i < 3 + 2 * lo@.len() ==> pts@[i]@ == hi@.update(
                i - 3 - lo@.len(),
                lo@[i - 3 - lo@.len()],
            ),
{
    let dims = lo.len();
    let mut pts: Vec<Vec<T>> = Vec::new();
    pts.push(copy_vec(mid));
    pts.push(copy_vec(lo));
    pts.push(copy_vec(hi));
    let ghost head = seq![mid@, lo@, hi@];
    assert(points_view(pts@) =~= head);
    for d in 0..dims
        invariant
            dims == lo.len(),
            lo.len() == hi.len(),
            head == seq![mid@, lo@, hi@],
            points_view(pts@) =~= head + Seq::new(d as nat, |e: int| one_high(lo@, hi@, e)),
    {
        let corner = copy_with(lo, d, hi[d]);
        let ghost before = pts@;
        pts.push(corner);
        assert(points_view(pts@) =~= points_view(before).push(one_high(lo@, hi@, d as int)));
        assert(Seq::new(d as nat, |e: int| one_high(lo@, hi@, e)).push(one_high(lo@, hi@, d as int))
            =~= Seq::new((d + 1) as nat, |e: int| one_high(lo@, hi@, e)));
    }
    let ghost highs = head + Seq::new(dims as nat, |e: int| one_high(lo@, hi@, e));
    if dims > 1 {
        for d in 0..dims
            invariant
                dims == lo.len(),
                lo.len() == hi.len(),
                points_view(pts@) =~= highs + Seq::new(d as nat, |e: int| one_low(lo@, hi@, e)),
        {
            let corner = copy_with(hi, d, lo[d]);
            let ghost before = pts@;
            pts.push(corner);
            assert(points_view(pts@) =~= points_view(before).push(one_low(lo@, hi@, d as int)));
            assert(Seq::new(d as nat, |e: int| one_low(lo@, hi@, e)).push(one_low(lo@, hi@, d as int))
                =~= Seq::new((d + 1) as nat, |e: int| one_low(lo@, hi@, e)));
        }
    } else {
        assert(highs + Seq::<Seq<T>>::empty() =~= highs);
    }
    proof {
        lemma_boundary_plan_shape(mid@, lo@, hi@);
        let pv = points_view(pts@);
        assert(pts@.len() == pv.len());
        assert forall|i: int| 0 <= i < pts@.len() implies pts@[i]@ == #[trigger] pv[i] by {}
        assert(pts@[0]@ == pv[0]);
        assert(pts@[1]@ == pv[1]);
        assert(pts@[2]@ == pv[2]);
        let plan = boundary_plan(mid@, lo@, hi@);
        assert(pv == plan);
        assert forall|i: int| 3 <= i < 3 + lo@.len() implies #[trigger] pts@[i]@ == lo@.update(
            i - 3,
            hi@[i - 3],
        ) by {
            assert(pts@[i]@ == pv[i]);
            assert(plan[i] == lo@.update(i - 3, hi@[i - 3]));
        }
        if lo@.len() > 1 {
            assert forall|i: int|
                3 + lo@.len() <= i < 3 + 2 * lo@.len() implies #[trigger] pts@[i]@ == hi@.update(
                i - 3 - lo@.len(),
                lo@[i - 3 - lo@.len()],
            ) by {
                assert(pts@[i]@ == pv[i]);
                assert(plan[i] == hi@.update(i - 3 - lo@.len(), lo@[i - 3 - lo@.len()]));
            }
        }
    }
    pts
}

/// The largest number of goods for which quasi-random (Sobol) sample points
/// are drawn.
pub const SOBOL_MAX_DIMS: usize = 65535;

/// How many quasi-random sample points are added to the deterministic ones:
/// all `samples` of them when the box has between 1 and `SOBOL_MAX_DIMS`
/// goods, none otherwise.
pub fn sobol_sample_count(dims: usize, samples: usize) -> (n: usize)
    ensures
        n == (if 0 < dims && dims <= SOBOL_MAX_DIMS { samples } else { 0 }),
        n == (if 0 < dims && dims <= 65535 { samples } else { 0 }),
{
    if dims > 0 && dims <= SOBOL_MAX_DIMS {
        samples
    } else {
        0
    }
}

/// The pairs of sample points whose midpoints are compared in the convexity
/// check: point `k` is paired with point `len - 1 - k`, for each `k` in the
/// first half of the sample list.
pub open spec fn convexity_plan(len: nat) -> Seq<(int, int)> {
    Seq::new(len / 2, |k: int| (k, len - 1 - k))
}

/// The index pairs of `convexity_plan(len)`, in order.
pub fn convexity_pairs(len: usize) -> (r: Vec<(usize, usize)>)
    ensures
        r@.len() == len / 2,
        r@.len() == convexity_plan(len as nat).len(),
        forall|k: int| #![trigger r@[k]] 0 <= k < r@.len() ==> r@[k].0 == k && r@[k].1 == len - 1 - k,
        forall|k: int|
            0 <= k < r@.len() ==> (r@[k].0 as int, r@[k].1 as int) == #[trigger] convexity_plan(
                len as nat,
            )[k],
{
    let mut r: Vec<(usize, usize)> = Vec::new();
    let half = len / 2;
    for k in 0..half
        invariant
            half == len / 2,
            r@.len() == k,
            forall|m: int| 0 <= m < k ==> r@[m].0 == m && r@[m].1 == len - 1 - m,
    {
        r.push((k, len - 1 - k));
    }
    r
}

/// Every point in a convexity pair is a valid index of the sample list, no
/// point is paired with itself, and no point takes part in two pairs.
pub proof fn lemma_convexity_pairs_disjoint(len: nat, a: int, b: int)
    requires
        0 <= a < convexity_plan(len).len(),
        0 <= b < convexity_plan(len).len(),
    ensures
        0 <= convexity_plan(len)[a].0 < len,
        0 <= convexity_plan(len)[a].1 < len,
        convexity_plan(len)[a].0 != convexity_plan(len)[a].1,
        a != b ==> {
            &&& convexity_plan(len)[a].0 != convexity_plan(len)[b].0
            &&& convexity_plan(len)[a].0 != convexity_plan(len)[b].1
            &&& convexity_plan(len)[a].1 != convexity_plan(len)[b].1
        },
{
}

/// The deterministic sample list holds `boundary_count(n)` points for a box
/// of `n` goods: three, then one per good, then (with more than one good)
/// one more per good.
pub proof fn lemma_boundary_count<T>(mid: Seq<T>, lo: Seq<T>, hi: Seq<T>)
    ensures
        boundary_plan(mid, lo, hi).len() == boundary_count(lo.len()),
{
}

/// Every deterministic sample point other than the midpoint takes each of its
/// coordinates from one of the two bounds.
pub proof fn lemma_boundary_points_on_bounds<T>(mid: Seq<T>, lo: Seq<T>, hi: Seq<T>, p: int, k: int)
    requires
        lo.len() == hi.len(),
        1 <= p < boundary_plan(mid, lo, hi).len(),
        0 <= k < lo.len(),
    ensures
        boundary_plan(mid, lo, hi)[p].len() == lo.len(),
        boundary_plan(mid, lo, hi)[p][k] == lo[k] || boundary_plan(mid, lo, hi)[p][k] == hi[k],
{
}

/// The sample list of a box with `n` goods, position by position: the
/// midpoint, the all-minimum point, the all-maximum point; then at position
/// `3 + d`, for every good `d`, the minimum point with good `d` raised to its
/// maximum; then (when `n > 1`) at position `3 + n + d` the maximum point with
/// good `d` lowered to its minimum.
pub proof fn lemma_boundary_plan_shape<T>(mid: Seq<T>, lo: Seq<T>, hi: Seq<T>)
    requires
        lo.len() == hi.len(),
    ensures
        boundary_plan(mid, lo, hi).len() == 3 + lo.len() + (if lo.len() > 1 { lo.len() } else { 0 }),
        boundary_plan(mid, lo, hi)[0] == mid,
        boundary_plan(mid, lo, hi)[1] == lo,
        boundary_plan(mid, lo, hi)[2] == hi,
        forall|i: int|
            #![trigger boundary_plan(mid, lo, hi)[i]]
            3 <= i < 3 + lo.len() ==> boundary_plan(mid, lo, hi)[i] == lo.update(i - 3, hi[i - 3]),
        lo.len() > 1 ==> forall|i: int|
            #![trigger boundary_plan(mid, lo, hi)[i]]
            3 + lo.len() <= i < 3 + 2 * lo.len() ==> boundary_plan(mid, lo, hi)[i] == hi.update(
                i - 3 - lo.len(),
                lo[i - 3 - lo.len()],
            ),
{
}

/// Point `p` takes part in one of the pairs.
pub open spec fn paired_in(pairs: Seq<(int, int)>, p: int) -> bool {
    exists|k: int| 0 <= k < pairs.len() && (pairs[k].0 == p || pairs[k].1 == p)
}

/// The convexity pairs of a list of `len` points: exactly `len / 2` of them,
/// the `k`-th pairing point `k` with its mirror `len - 1 - k`, so that every
/// point except the middle one of an odd-length list is checked.
pub proof fn lemma_convexity_plan_shape(len: nat)
    ensures
        convexity_plan(len).len() == len / 2,
        forall|k: int|
            #![trigger convexity_plan(len)[k]]
            0 <= k < len / 2 ==> convexity_plan(len)[k] == (k, len - 1 - k),
        forall|p: int|
            0 <= p < len && !(len % 2 == 1 && p == len / 2) ==> #[trigger] paired_in(
                convexity_plan(len),
                p,
            ),
{
    assert forall|p: int|
        0 <= p < len && !(len % 2 == 1 && p == len / 2) implies #[trigger] paired_in(
            convexity_plan(len),
            p,
        ) by {
        if p < len / 2 {
            assert(convexity_plan(len)[p].0 == p);
        } else {
            let k = len - 1 - p;
            assert(convexity_plan(len)[k].1 == p);
        }
    }
}

} // verus!
