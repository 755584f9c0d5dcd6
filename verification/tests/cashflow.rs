use dbe::cashflow::{unispread_horizon, Horizon};

#[test]
fn test_pv_unispread_with_start_idx_greater_than_t_steps_returns_nan() {
    // start_idx is 1 (w_init is false), t_steps is 0: nothing to spread over.
    assert_eq!(unispread_horizon(0, false), None);
}

#[test]
fn unispread_horizon_with_init_starts_at_step_zero() {
    let h = unispread_horizon(2, true).unwrap();
    assert_eq!(h, Horizon { first: 0, last: 2 });
}

#[test]
fn unispread_horizon_without_init_starts_at_step_one() {
    let h = unispread_horizon(2, false).unwrap();
    assert_eq!(h, Horizon { first: 1, last: 2 });
}

#[test]
fn unispread_horizon_zero_steps_with_init_is_single_payment() {
    let h = unispread_horizon(0, true).unwrap();
    assert_eq!(h, Horizon { first: 0, last: 0 });
}

#[test]
fn unispread_initial_period_adds_one_payment() {
    for t in 1..20 {
        let with = unispread_horizon(t, true).unwrap();
        let without = unispread_horizon(t, false).unwrap();
        assert_eq!(with.last - with.first, without.last - without.first + 1);
        assert_eq!(with.first, 0);
        assert_eq!(without.first, 1);
        assert_eq!(with.last, without.last);
    }
}

#[test]
fn unispread_horizon_matches_reference_factor() {
    // Summing (1 + rate)^t over the horizon reproduces the documented
    // uniform-spread values (29.6348 with step 0, 42.1159 without).
    let rate: f64 = 0.12;
    let fact = |h: Horizon| -> f64 { (h.first..=h.last).map(|t| (1.0 + rate).powi(t)).sum() };
    let with = 100.0 / fact(unispread_horizon(2, true).unwrap());
    let without = 100.0 / fact(unispread_horizon(2, false).unwrap());
    assert!((with - 29.6348).abs() < 0.1);
    assert!((without - 42.1159).abs() < 0.1);
}
