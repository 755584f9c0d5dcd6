use dbe::consumer::pref::{
    boundary_points, check_bounds_shape, convexity_pairs, sobol_sample_count, BoundsError,
    SOBOL_MAX_DIMS,
};

#[test]
fn test_new_mismatched_bounds_raises_err() {
    let min_bounds = vec![0.0, 0.0];
    let max_bounds = vec![10.0];
    let r = check_bounds_shape(min_bounds.len(), max_bounds.len());
    assert!(r.is_err(), "Should fail when bounds lengths are different");
    assert_eq!(r, Err(BoundsError::Shape));
}

#[test]
fn bounds_shape_accepts_equal_non_empty() {
    assert_eq!(check_bounds_shape(2, 2), Ok(()));
    assert_eq!(check_bounds_shape(1, 1), Ok(()));
}

#[test]
fn bounds_shape_refuses_empty() {
    assert_eq!(check_bounds_shape(0, 0), Err(BoundsError::Shape));
    assert_eq!(check_bounds_shape(0, 3), Err(BoundsError::Shape));
}

#[test]
fn boundary_points_two_goods() {
    let lo = vec![0.0, 0.0];
    let hi = vec![10.0, 10.0];
    let mid = vec![5.0, 5.0];
    let pts = boundary_points(&mid, &lo, &hi);
    let expected: Vec<Vec<f64>> = vec![
        vec![5.0, 5.0],
        vec![0.0, 0.0],
        vec![10.0, 10.0],
        vec![10.0, 0.0],
        vec![0.0, 10.0],
        vec![0.0, 10.0],
        vec![10.0, 0.0],
    ];
    assert_eq!(pts, expected);
}

#[test]
fn boundary_points_one_good_has_no_low_corners() {
    let pts = boundary_points(&vec![2.0], &vec![1.0], &vec![3.0]);
    assert_eq!(pts, vec![vec![2.0], vec![1.0], vec![3.0], vec![3.0]]);
}

#[test]
fn boundary_points_three_goods_count() {
    let lo = vec![0u32, 1, 2];
    let hi = vec![7u32, 8, 9];
    let mid = vec![4u32, 4, 5];
    let pts = boundary_points(&mid, &lo, &hi);
    assert_eq!(pts.len(), 3 + 2 * 3);
    assert_eq!(pts[4], vec![0, 8, 2]);
    assert_eq!(pts[3 + 3 + 2], vec![7, 8, 2]);
}

#[test]
fn sobol_count_respects_dimension_range() {
    assert_eq!(sobol_sample_count(2, 60_000), 60_000);
    assert_eq!(sobol_sample_count(0, 100), 0);
    assert_eq!(sobol_sample_count(SOBOL_MAX_DIMS, 7), 7);
    assert_eq!(sobol_sample_count(SOBOL_MAX_DIMS + 1, 7), 0);
    assert_eq!(sobol_sample_count(3, 0), 0);
}

#[test]
fn convexity_pairs_mirror_the_list() {
    assert_eq!(convexity_pairs(7), vec![(0, 6), (1, 5), (2, 4)]);
    assert_eq!(convexity_pairs(6), vec![(0, 5), (1, 4), (2, 3)]);
    assert_eq!(convexity_pairs(1), vec![]);
    assert_eq!(convexity_pairs(0), vec![]);
}

#[test]
fn convexity_pairs_are_disjoint() {
    let pairs = convexity_pairs(101);
    let mut seen = vec![false; 101];
    for (a, b) in pairs {
        assert_ne!(a, b);
        assert!(!seen[a] && !seen[b]);
        seen[a] = true;
        seen[b] = true;
    }
    assert!(!seen[50]);
}
