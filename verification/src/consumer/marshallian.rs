//! The request checks of utility maximisation under a linear budget
//! constraint `p * x <= income`.
//!
//! The interior-point optimiser itself runs on floating point elsewhere;
//! this module decides which requests it refuses, and in which order.
use vstd::prelude::*;

verus! {

/// Why a utility-maximising bundle could not be computed.
#[derive(Clone, Copy, Debug, PartialEq, Eq, Structural)]
pub enum BudgetError {
    /// The price vector does not have one price per good.
    PriceCount { prices: usize, goods: usize },
    /// The income is zero or negative.
    NonPositiveIncome,
    /// Some price is zero or negative.
    NonPositivePrice,
    /// No strictly feasible starting bundle was found.
    NoInteriorStart,
}

/// The first check that a budget request fails, in the order in which they
/// are made: one price per good, then a positive income, then positive
/// prices.
pub open spec fn budget_request_error(
    goods: usize,
    prices: usize,
    income_positive: bool,
    prices_positive: bool,
) -> Option<BudgetError> {
    if prices != goods {
        Some(BudgetError::PriceCount { prices, goods })
    } else if !income_positive {
        Some(BudgetError::NonPositiveIncome)
    } else if !prices_positive {
        Some(BudgetError::NonPositivePrice)
    } else {
        None
    }
}

/// Checks a request to maximise utility over `goods` goods with a price
/// vector of length `prices`; `income_positive` and `prices_positive` tell
/// whether the income, and every price, is strictly positive.
pub fn check_budget_request(
    goods: usize,
    prices: usize,
    income_positive: bool,
    prices_positive: bool,
) -> (r: Result<(), BudgetError>)
    ensures
        match budget_request_error(goods, prices, income_positive, prices_positive) {
            Some(e) => r == Err::<(), BudgetError>(e),
            None => r is Ok,
        },
        r is Ok <==> (prices == goods && income_positive && prices_positive),
        prices != goods ==> r == Err::<(), BudgetError>(BudgetError::PriceCount { prices, goods }),
        prices == goods && !income_positive ==> r == Err::<(), BudgetError>(
            BudgetError::NonPositiveIncome,
        ),
        prices == goods && income_positive && !prices_positive ==> r == Err::<(), BudgetError>(
            BudgetError::NonPositivePrice,
        ),
{
    if prices != goods {
        return Err(BudgetError::PriceCount { prices, goods });
    }
    if !income_positive {
        return Err(BudgetError::NonPositiveIncome);
    }
    if !prices_positive {
        return Err(BudgetError::NonPositivePrice);
    }
    Ok(())
}

/// A budget request is refused exactly when the price count is wrong, the
/// income is not positive, or some price is not positive; and the refusal
/// names the first of these failures.
pub proof fn lemma_budget_request_refusals(
    goods: usize,
    prices: usize,
    income_positive: bool,
    prices_positive: bool,
)
    ensures
        budget_request_error(goods, prices, income_positive, prices_positive) is None <==> (prices
            == goods && income_positive && prices_positive),
        prices != goods ==> budget_request_error(goods, prices, income_positive, prices_positive)
            == Some(BudgetError::PriceCount { prices, goods }),
        prices == goods && !income_positive ==> budget_request_error(
            goods,
            prices,
            income_positive,
            prices_positive,
        ) == Some(BudgetError::NonPositiveIncome),
        prices == goods && income_positive && !prices_positive ==> budget_request_error(
            goods,
            prices,
            income_positive,
            prices_positive,
        ) == Some(BudgetError::NonPositivePrice),
{
}

} // verus!
