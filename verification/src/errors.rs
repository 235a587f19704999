//! Error taxonomies of the two cooperating components.
//!
//! Every error aborts the enclosing operation without partial mutation; the
//! contracts of the operations say exactly which inputs produce which variant.

use vstd::prelude::*;

verus! {

/// Errors of the revenue engine component.
#[derive(Clone, Copy, PartialEq, Eq, Structural, Debug)]
pub enum ErrorCode {
    /// The presented caller identity is not the one the operation trusts.
    Unauthorized,
    /// A checked arithmetic step overflowed or underflowed.
    CalculationError,
    /// The three ratios sum to more than the full 10000 basis points.
    InvalidRatioSum,
    /// A handed-in account is owned by the wrong party.
    InvalidOwner,
}

/// Errors of the staking component.
#[derive(Clone, Copy, PartialEq, Eq, Structural, Debug)]
pub enum StakingError {
    /// The position does not hold an actively staked item.
    NftNotStaked,
    /// The presented caller identity is not entitled to this position.
    Unauthorized,
    /// Settlement found no newly accrued reward to pay out.
    NoRewardsToClaim,
    /// A checked arithmetic step overflowed or underflowed.
    CalculationError,
}

} // verus!
