//! The request checks and point collection of indifference-curve tracing.
//!
//! A curve is traced by gridding one good across its bounds and, for each
//! grid value, solving for the other good by bisection. The solving runs on
//! floating point elsewhere; this module decides which requests are refused,
//! builds the bundle at which each trial is evaluated, and gathers the grid
//! values for which a solution was found.
use vstd::prelude::*;

use super::{copy_with, GoodArg};

verus! {

/// Why an indifference curve could not be traced.
#[derive(Clone, Copy, Debug, PartialEq, Eq, Structural)]
pub enum TraceError {
    /// The good named by `arg` is not one of the `dims` goods.
    GoodOutOfBounds { arg: GoodArg, good: usize, dims: usize },
    /// Both axes name the same good.
    SameGood,
    /// Fewer than two grid points were asked for.
    TooFewPoints,
    /// No grid value of the first good admits a bundle at the target utility.
    NoPoints,
}

/// The first check that a tracing request fails, in the order in which they
/// are made: `good_i` in range, `good_j` in range, the two goods distinct, and
/// at least two grid points.
pub open spec fn trace_request_error(
    dims: usize,
    good_i: usize,
    good_j: usize,
    n_points: usize,
) -> Option<TraceError> {
    if good_i >= dims {
        Some(TraceError::GoodOutOfBounds { arg: GoodArg::GoodI, good: good_i, dims })
    } else if good_j >= dims {
        Some(TraceError::GoodOutOfBounds { arg: GoodArg::GoodJ, good: good_j, dims })
    } else if good_i == good_j {
        Some(TraceError::SameGood)
    } else if n_points < 2 {
        Some(TraceError::TooFewPoints)
    } else {
        None
    }
}

/// Checks a tracing request over a preference with `dims` goods.
pub fn check_trace_request(dims: usize, good_i: usize, good_j: usize, n_points: usize) -> (r:
    Result<(), TraceError>)
    ensures
        match trace_request_error(dims, good_i, good_j, n_points) {
            Some(e) => r == Err::<(), TraceError>(e),
            None => r is Ok,
        },
        r is Ok <==> good_i < dims && good_j < dims && good_i != good_j && n_points >= 2,
        good_i >= dims ==> r == Err::<(), TraceError>(
            TraceError::GoodOutOfBounds { arg: GoodArg::GoodI, good: good_i, dims },
        ),
        good_i < dims && good_j >= dims ==> r == Err::<(), TraceError>(
            TraceError::GoodOutOfBounds { arg: GoodArg::GoodJ, good: good_j, dims },
        ),
        good_i < dims && good_j < dims && good_i == good_j ==> r == Err::<(), TraceError>(
            TraceError::SameGood,
        ),
        good_i < dims && good_j < dims && good_i != good_j && n_points < 2 ==> r == Err::<
            (),
            TraceError,
        >(TraceError::TooFewPoints),
{
    if good_i >= dims {
        return Err(TraceError::GoodOutOfBounds { arg: GoodArg::GoodI, good: good_i, dims });
    }
    if good_j >= dims {
        return Err(TraceError::GoodOutOfBounds { arg: GoodArg::GoodJ, good: good_j, dims });
    }
    if good_i == good_j {
        return Err(TraceError::SameGood);
    }
    if n_points < 2 {
        return Err(TraceError::TooFewPoints);
    }
    Ok(())
}

/// The bundle at which a trial is evaluated: the base bundle with good
/// `good_i` set to `xi` and good `good_j` set to `xj`.
pub fn curve_bundle<T: Copy>(base: &Vec<T>, good_i: usize, xi: T, good_j: usize, xj: T) -> (r:
    Vec<T>)
    requires
        good_i < base.len(),
        good_j < base.len(),
    ensures
        r@ == base@.update(good_i as int, xi).update(good_j as int, xj),
{
    let mut r = copy_with(base, good_i, xi);
    r.set(good_j, xj);
    r
}

/// The solutions that were found, in grid order, skipping the grid values
/// for which there was none.
pub open spec fn found_values<T>(found: Seq<Option<T>>) -> Seq<T>
    decreases found.len(),
{
    if found.len() == 0 {
        Seq::empty()
    } else {
        let rest = found_values(found.drop_last());
        match found.last() {
            Some(v) => rest.push(v),
            None => rest,
        }
    }
}

/// Gathers the points of a traced curve: grid values without a solution are
/// skipped, and the trace fails only when no grid value had one.
pub fn collect_points<T: Copy>(found: &Vec<Option<T>>) -> (r: Result<Vec<T>, TraceError>)
    ensures
        r is Err <==> found_values(found@).len() == 0,
        r is Err ==> r == Err::<Vec<T>, TraceError>(TraceError::NoPoints),
        r matches Ok(v) ==> v@ == found_values(found@),
{
    let mut pts: Vec<T> = Vec::new();
    let n = found.len();
    for k in 0..n
        invariant
            n == found.len(),
            pts@ == found_values(found@.take(k as int)),
    {
        assert(found@.take(k + 1).drop_last() =~= found@.take(k as int));
        match found[k] {
            Some(v) => {
                pts.push(v);
            },
            None => {},
        }
    }
    assert(found@.take(n as int) =~= found@);
    if pts.len() == 0 {
        Err(TraceError::NoPoints)
    } else {
        Ok(pts)
    }
}

/// Skipping loses no solution and invents none: a value is among the
/// collected points exactly when some grid value yielded it, and there are
/// never more points than grid values.
pub proof fn lemma_found_values_members<T>(found: Seq<Option<T>>)
    ensures
        found_values(found).len() <= found.len(),
        forall|v: T| #[trigger] found_values(found).contains(v) <==> found.contains(Some(v)),
    decreases found.len(),
{
    if found.len() > 0 {
        let init = found.drop_last();
        lemma_found_values_members(init);
        assert forall|v: T| #[trigger] found_values(found).contains(v) <==> found.contains(
            Some(v),
        ) by {
            if found.contains(Some(v)) {
                let k = choose|k: int| 0 <= k < found.len() && found[k] == Some(v);
                if k < found.len() - 1 {
                    assert(init[k] == Some(v));
                    assert(init.contains(Some(v)));
                }
            }
            if init.contains(Some(v)) {
                let k = choose|k: int| 0 <= k < init.len() && init[k] == Some(v);
                assert(found[k] == Some(v));
            }
            let rest = found_values(init);
            if found_values(found).contains(v) {
                match found.last() {
                    Some(w) => {
                        if w != v {
                            let m = choose|m: int|
                                0 <= m < found_values(found).len() && found_values(found)[m] == v;
                            assert(rest[m] == v);
                        }
                    },
                    None => {},
                }
            }
            if rest.contains(v) {
                let m = choose|m: int| 0 <= m < rest.len() && rest[m] == v;
                match found.last() {
                    Some(w) => {
                        assert(found_values(found)[m] == v);
                    },
                    None => {},
                }
            }
            match found.last() {
                Some(w) => {
                    if w == v {
                        assert(found_values(found)[rest.len() as int] == v);
                    }
                },
                None => {},
            }
        }
    }
}

/// A tracing request is refused exactly when one of the goods is out of
/// range, the goods coincide, or fewer than two grid points are asked for;
/// and the refusal names the first of these failures.
pub proof fn lemma_trace_request_refusals(dims: usize, good_i: usize, good_j: usize, n_points: usize)
    ensures
        trace_request_error(dims, good_i, good_j, n_points) is None <==> (good_i < dims && good_j
            < dims && good_i != good_j && n_points >= 2),
        good_i >= dims ==> trace_request_error(dims, good_i, good_j, n_points) == Some(
            TraceError::GoodOutOfBounds { arg: GoodArg::GoodI, good: good_i, dims },
        ),
        good_i < dims && good_j >= dims ==> trace_request_error(dims, good_i, good_j, n_points)
            == Some(TraceError::GoodOutOfBounds { arg: GoodArg::GoodJ, good: good_j, dims }),
        good_i < dims && good_j < dims && good_i == good_j ==> trace_request_error(
            dims,
            good_i,
            good_j,
            n_points,
        ) == Some(TraceError::SameGood),
{
}

/// Gathering keeps grid order: no grid value gives no points, a further grid
/// value with a solution appends that solution at the end, and a further grid
/// value without one changes nothing.
pub proof fn lemma_found_values_order<T>(found: Seq<Option<T>>, v: T)
    ensures
        found_values(Seq::<Option<T>>::empty()) == Seq::<T>::empty(),
        found_values(found.push(Some(v))) == found_values(found).push(v),
        found_values(found.push(None)) == found_values(found),
{
    assert(found.push(Some(v)).drop_last() =~= found);
    assert(found.push(None).drop_last() =~= found);
}

/// The points gathered from a list of grid results, read front to back: the
/// first grid value's solution (if any) comes first, followed by the points
/// gathered from the remaining grid values.
pub proof fn lemma_found_values_front<T>(found: Seq<Option<T>>)
    requires
        found.len() > 0,
    ensures
        found_values(found) == match found[0] {
            Some(v) => seq![v] + found_values(found.drop_first()),
            None => found_values(found.drop_first()),
        },
    decreases found.len(),
{
    if found.len() == 1 {
        assert(found.drop_last() =~= Seq::<Option<T>>::empty());
        assert(found.drop_first() =~= Seq::<Option<T>>::empty());
        match found[0] {
            Some(v) => {
                assert(found_values(found) =~= seq![v] + found_values(found.drop_first()));
            },
            None => {},
        }
    } else {
        let init = found.drop_last();
        lemma_found_values_front(init);
        assert(init.drop_first() =~= found.drop_first().drop_last());
        assert(found.drop_first().last() == found.last());
        assert(init[0] == found[0]);
        match found[0] {
            Some(v) => {
                assert(found_values(found) =~= seq![v] + found_values(found.drop_first()));
            },
            None => {},
        }
    }
}

} // verus!
