use vstd::prelude::*;
use crate::error::SimError;
use crate::valuation::{scale_value, scaled_value, scaled_value_fits};

verus! {

/// Handle of a market in the ledger's registry: the position of the market in
/// the list that the caller keeps of them.
#[derive(Clone, Copy, Debug, PartialEq, Eq, Structural)]
pub struct MarketId {
    pub index: usize,
}

/// One fixed-term borrow: what was lent and the fee accrued on it.
#[derive(Clone, Copy, Debug, PartialEq, Eq, Structural)]
pub struct FixedPosition {
    pub principal: u128,
    pub fee: u128,
}

/// An account's position in one market, as the ledger reports it.
#[derive(Clone, Debug)]
pub struct MarketPosition {
    pub market: MarketId,
    pub floating_borrow_assets: u128,
    pub fixed_borrow_positions: Vec<FixedPosition>,
    pub floating_deposit_assets: u128,
    pub is_collateral: bool,
    /// Price of one whole unit of the asset, 18-decimal fixed point.
    pub usd_price: u128,
    pub decimals: u8,
}

/// Principal plus fee over a list of fixed-term positions.
pub open spec fn fixed_debt(s: Seq<FixedPosition>) -> int
    decreases s.len(),
{
    if s.len() == 0 {
        0
    } else {
        fixed_debt(s.drop_last()) + s.last().principal + s.last().fee
    }
}

/// Everything borrowed in a market, in units of its asset.
pub open spec fn borrowed_assets(p: MarketPosition) -> int {
    p.floating_borrow_assets + fixed_debt(p.fixed_borrow_positions@)
}

/// The value of the debt held in a market.
pub open spec fn debt_value(p: MarketPosition) -> int {
    scaled_value(borrowed_assets(p), p.usd_price as int, p.decimals as nat)
}

pub open spec fn debt_value_fits(p: MarketPosition) -> bool {
    borrowed_assets(p) <= u128::MAX && scaled_value_fits(
        borrowed_assets(p),
        p.usd_price as int,
        p.decimals as nat,
    )
}

/// The value of the floating deposit held in a market.
pub open spec fn collateral_value(p: MarketPosition) -> int {
    scaled_value(p.floating_deposit_assets as int, p.usd_price as int, p.decimals as nat)
}

pub open spec fn collateral_value_fits(p: MarketPosition) -> bool {
    scaled_value_fits(p.floating_deposit_assets as int, p.usd_price as int, p.decimals as nat)
}

pub proof fn lemma_fixed_debt_nonnegative(s: Seq<FixedPosition>)
    ensures
        fixed_debt(s) >= 0,
    decreases s.len(),
{
    if s.len() > 0 {
        lemma_fixed_debt_nonnegative(s.drop_last());
    }
}

/// The debt of a prefix never exceeds the debt of the whole list.
pub proof fn lemma_fixed_debt_prefix(s: Seq<FixedPosition>, i: int)
    requires
        0 <= i <= s.len(),
    ensures
        fixed_debt(s.take(i)) <= fixed_debt(s),
    decreases s.len(),
{
    if i < s.len() {
        assert(s.drop_last().take(i) =~= s.take(i));
        lemma_fixed_debt_prefix(s.drop_last(), i);
    } else {
        assert(s.take(i) =~= s);
    }
}

impl MarketPosition {
    /// Floating borrow plus principal and fee of every fixed-term borrow;
    /// `None` when the sum leaves 128 bits.
    pub fn borrowed_assets(&self) -> (r: Option<u128>)
        ensures
            r is Some <==> borrowed_assets(*self) <= u128::MAX,
            r matches Some(v) ==> v == borrowed_assets(*self),
    {
        let positions = &self.fixed_borrow_positions;
        let mut total: u128 = self.floating_borrow_assets;
        let mut i: usize = 0;
        while i < positions.len()
            invariant
                i <= positions.len(),
                positions@ == self.fixed_borrow_positions@,
                total == self.floating_borrow_assets + fixed_debt(positions@.take(i as int)),
            decreases positions.len() - i,
        {
            let p = positions[i];
            proof {
                assert(positions@.take(i + 1).drop_last() =~= positions@.take(i as int));
                lemma_fixed_debt_prefix(positions@, i + 1);
                lemma_fixed_debt_nonnegative(positions@.take(i + 1));
            }
            total = match total.checked_add(p.principal) {
                Some(v) => v,
                None => return None,
            };
            total = match total.checked_add(p.fee) {
                Some(v) => v,
                None => return None,
            };
            i = i + 1;
        }
        assert(positions@.take(positions.len() as int) =~= positions@);
        Some(total)
    }

    /// The value of the debt in this market; `None` when it leaves 128 bits.
    pub fn debt_value(&self) -> (r: Option<u128>)
        ensures
            r is Some <==> debt_value_fits(*self),
            r matches Some(v) ==> v == debt_value(*self),
    {
        match self.borrowed_assets() {
            Some(assets) => scale_value(assets, self.usd_price, self.decimals),
            None => None,
        }
    }

    /// The value of the floating deposit in this market; `None` when it
    /// leaves 128 bits.
    pub fn collateral_value(&self) -> (r: Option<u128>)
        ensures
            r is Some <==> collateral_value_fits(*self),
            r matches Some(v) ==> v == collateral_value(*self),
    {
        scale_value(self.floating_deposit_assets, self.usd_price, self.decimals)
    }
}

} // verus!
