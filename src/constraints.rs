use vstd::prelude::*;

use crate::curve::SwapCurve;
use crate::error::SwapError;
use crate::fees::Fees;

verus! {

/// Limits that a deployment may place on the pools it creates.
#[derive(Clone, Copy, Debug, Eq, PartialEq, Structural)]
pub struct SwapConstraints {
    /// Constant-product pools may be created.
    pub allow_constant_product: bool,
    /// Constant-price pools may be created.
    pub allow_constant_price: bool,
    /// Offset pools may be created.
    pub allow_offset: bool,
    /// Stable pools may be created.
    pub allow_stable: bool,
    /// The one fee schedule that pools must use.
    pub fees: Fees,
}

/// Whether the constraints admit a curve of this kind.
pub open spec fn curve_allowed(c: SwapConstraints, curve: SwapCurve) -> bool {
    match curve {
        SwapCurve::ConstantProduct => c.allow_constant_product,
        SwapCurve::ConstantPrice { .. } => c.allow_constant_price,
        SwapCurve::Offset { .. } => c.allow_offset,
        SwapCurve::Stable { .. } => c.allow_stable,
    }
}

/// The outcome of holding a new pool's curve and fees to optional constraints.
pub open spec fn constraints_result(constraints: Option<SwapConstraints>, fees: Fees, curve: SwapCurve) -> Result<(), SwapError> {
    match constraints {
        None => Ok(()),
        Some(c) => if !curve_allowed(c, curve) {
            Err(SwapError::UnsupportedCurveType)
        } else if c.fees != fees {
            Err(SwapError::InvalidFee)
        } else {
            Ok(())
        },
    }
}

/// Checks a new pool's curve and fees against optional constraints:
/// `UnsupportedCurveType` for a curve kind they exclude, `InvalidFee` for any other
/// fee schedule than theirs.
pub fn validate_constraints(constraints: &Option<SwapConstraints>, fees: &Fees, curve: &SwapCurve) -> (r: Result<(), SwapError>)
    ensures
        r == constraints_result(*constraints, *fees, *curve),
{
    match constraints {
        None => Ok(()),
        Some(c) => {
            let allowed = match curve {
                SwapCurve::ConstantProduct => c.allow_constant_product,
                SwapCurve::ConstantPrice { .. } => c.allow_constant_price,
                SwapCurve::Offset { .. } => c.allow_offset,
                SwapCurve::Stable { .. } => c.allow_stable,
            };
            if !allowed {
                Err(SwapError::UnsupportedCurveType)
            } else if c.fees != *fees {
                Err(SwapError::InvalidFee)
            } else {
                Ok(())
            }
        },
    }
}

} // verus!
