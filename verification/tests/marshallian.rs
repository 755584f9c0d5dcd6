use dbe::consumer::marshallian::{check_budget_request, BudgetError};

fn check(goods: usize, prices: &[f64], income: f64) -> Result<(), BudgetError> {
    check_budget_request(goods, prices.len(), income > 0.0, prices.iter().all(|&p| p > 0.0))
}

#[test]
fn test_optimal_bundle_mismatched_prices_raises_err() {
    let r = check(2, &[1.0], 10.0);
    assert!(r.is_err());
    assert_eq!(r, Err(BudgetError::PriceCount { prices: 1, goods: 2 }));
}

#[test]
fn test_optimal_bundle_zero_income_raises_err() {
    let r = check(2, &[1.0, 1.0], 0.0);
    assert!(r.is_err());
    assert_eq!(r, Err(BudgetError::NonPositiveIncome));
}

#[test]
fn budget_request_non_positive_price() {
    assert_eq!(check(2, &[1.0, 0.0], 10.0), Err(BudgetError::NonPositivePrice));
    assert_eq!(check(2, &[-1.0, 2.0], -3.0), Err(BudgetError::NonPositiveIncome));
}

#[test]
fn budget_request_accepts_valid() {
    assert_eq!(check(2, &[2.0, 3.0], 12.0), Ok(()));
}
