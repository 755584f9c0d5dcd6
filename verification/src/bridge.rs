//! The argument checks that the Python bindings make before evaluating a
//! preference at a bundle.
use vstd::prelude::*;

use crate::consumer::GoodArg;

verus! {

/// Why a call from Python was refused.
#[derive(Clone, Copy, Debug, PartialEq, Eq, Structural)]
pub enum BridgeError {
    /// The bundle does not have one quantity per good (a `ValueError`).
    BundleLength { len: usize, goods: usize },
    /// The good named by `arg` is not one of the goods (an `IndexError`).
    GoodIndex { arg: GoodArg, good: usize, goods: usize },
}

/// A bundle must hold exactly one quantity per good.
pub fn validate_bundle(len: usize, goods: usize) -> (r: Result<(), BridgeError>)
    ensures
        r is Ok <==> len == goods,
        r is Err ==> r == Err::<(), BridgeError>(BridgeError::BundleLength { len, goods }),
{
    if len != goods {
        Err(BridgeError::BundleLength { len, goods })
    } else {
        Ok(())
    }
}

/// A good index must name one of the goods.
pub fn validate_good_index(good: usize, goods: usize, arg: GoodArg) -> (r: Result<(), BridgeError>)
    ensures
        r is Ok <==> good < goods,
        r is Err ==> r == Err::<(), BridgeError>(BridgeError::GoodIndex { arg, good, goods }),
{
    if good >= goods {
        Err(BridgeError::GoodIndex { arg, good, goods })
    } else {
        Ok(())
    }
}

/// The checks of a marginal-utility request, in order: the bundle's length,
/// then the good.
pub fn check_mu_request(len: usize, goods: usize, good: usize) -> (r: Result<(), BridgeError>)
    ensures
        len != goods ==> r == Err::<(), BridgeError>(BridgeError::BundleLength { len, goods }),
        len == goods && good >= goods ==> r == Err::<(), BridgeError>(
            BridgeError::GoodIndex { arg: GoodArg::Good, good, goods },
        ),
        r is Ok <==> len == goods && good < goods,
{
    validate_bundle(len, goods)?;
    validate_good_index(good, goods, GoodArg::Good)
}

/// The checks of a marginal-rate-of-substitution request, in order: the
/// bundle's length, then `good_i`, then `good_j`.
pub fn check_mrs_request(len: usize, goods: usize, good_i: usize, good_j: usize) -> (r: Result<
    (),
    BridgeError,
>)
    ensures
        len != goods ==> r == Err::<(), BridgeError>(BridgeError::BundleLength { len, goods }),
        len == goods && good_i >= goods ==> r == Err::<(), BridgeError>(
            BridgeError::GoodIndex { arg: GoodArg::GoodI, good: good_i, goods },
        ),
        len == goods && good_i < goods && good_j >= goods ==> r == Err::<(), BridgeError>(
            BridgeError::GoodIndex { arg: GoodArg::GoodJ, good: good_j, goods },
        ),
        r is Ok <==> len == goods && good_i < goods && good_j < goods,
{
    validate_bundle(len, goods)?;
    validate_good_index(good_i, goods, GoodArg::GoodI)?;
    validate_good_index(good_j, goods, GoodArg::GoodJ)
}

} // verus!
