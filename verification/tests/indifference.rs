use dbe::consumer::indifference::{check_trace_request, collect_points, curve_bundle, TraceError};
use dbe::consumer::GoodArg;

#[test]
fn test_trace_2d_same_good_raises_err() {
    let r = check_trace_request(2, 0, 0, 200);
    assert!(r.is_err());
    assert_eq!(r, Err(TraceError::SameGood));
}

#[test]
fn test_trace_2d_out_of_bounds_good_raises_err() {
    let r = check_trace_request(2, 0, 5, 200);
    assert!(r.is_err());
    assert_eq!(
        r,
        Err(TraceError::GoodOutOfBounds { arg: GoodArg::GoodJ, good: 5, dims: 2 })
    );
}

#[test]
fn test_trace_2d_n_points_less_than_2_raises_err() {
    let r = check_trace_request(2, 0, 1, 1);
    assert!(r.is_err());
    assert_eq!(r, Err(TraceError::TooFewPoints));
}

#[test]
fn trace_request_checks_good_i_first() {
    assert_eq!(
        check_trace_request(2, 7, 9, 0),
        Err(TraceError::GoodOutOfBounds { arg: GoodArg::GoodI, good: 7, dims: 2 })
    );
    assert_eq!(check_trace_request(3, 2, 2, 0), Err(TraceError::SameGood));
    assert_eq!(check_trace_request(3, 2, 0, 2), Ok(()));
}

#[test]
fn unreachable_target_yields_no_points() {
    let found: Vec<Option<(f64, f64)>> = vec![None; 200];
    assert_eq!(collect_points(&found), Err(TraceError::NoPoints));
    let empty: Vec<Option<(f64, f64)>> = vec![];
    assert_eq!(collect_points(&empty), Err(TraceError::NoPoints));
}

#[test]
fn collect_points_skips_missing_and_keeps_order() {
    let found = vec![None, Some((0.0, 8.0)), None, Some((1.0, 7.0)), Some((2.0, 6.0))];
    assert_eq!(
        collect_points(&found),
        Ok(vec![(0.0, 8.0), (1.0, 7.0), (2.0, 6.0)])
    );
}

#[test]
fn curve_bundle_sets_both_goods() {
    let base = vec![5.0, 5.0, 5.0];
    assert_eq!(curve_bundle(&base, 0, 1.5, 2, 9.0), vec![1.5, 5.0, 9.0]);
    assert_eq!(curve_bundle(&base, 1, 2.0, 0, 3.0), vec![3.0, 2.0, 5.0]);
}
