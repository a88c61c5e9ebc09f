use vstd::prelude::*;

verus! {

/// Collateral over debt, kept exact: a ratio of the two fixed-point totals, or
/// infinite when there is no debt.
#[derive(Clone, Copy, Debug, PartialEq, Eq, Structural)]
pub enum HealthFactor {
    Infinite,
    Ratio { collateral: u128, debt: u128 },
}

pub open spec fn health_of(collateral: u128, debt: u128) -> HealthFactor {
    if debt == 0 {
        HealthFactor::Infinite
    } else {
        HealthFactor::Ratio { collateral, debt }
    }
}

pub open spec fn below_one(h: HealthFactor) -> bool {
    match h {
        HealthFactor::Infinite => false,
        HealthFactor::Ratio { collateral, debt } => collateral < debt,
    }
}

/// The health factor of an account with the given totals.
pub fn health_factor(collateral: u128, debt: u128) -> (r: HealthFactor)
    ensures
        r == health_of(collateral, debt),
{
    if debt == 0 {
        HealthFactor::Infinite
    } else {
        HealthFactor::Ratio { collateral, debt }
    }
}

/// An account can be liquidated when its collateral is strictly below its
/// debt; equal totals are solvent.
pub fn is_liquidatable(collateral: u128, debt: u128) -> (r: bool)
    ensures
        r == (collateral < debt),
{
    collateral < debt
}

impl HealthFactor {
    pub fn is_below_one(&self) -> (r: bool)
        ensures
            r == below_one(*self),
    {
        match self {
            HealthFactor::Infinite => false,
            HealthFactor::Ratio { collateral, debt } => *collateral < *debt,
        }
    }
}

/// A health factor below one marks exactly the accounts that can be
/// liquidated, and an account without debt is never one of them.
pub proof fn lemma_health_below_one_iff_liquidatable(collateral: u128, debt: u128)
    ensures
        below_one(health_of(collateral, debt)) == (collateral < debt),
        debt == 0 ==> health_of(collateral, debt) == HealthFactor::Infinite,
{
}

} // verus!
