use vstd::prelude::*;
use crate::error::SimError;
use crate::market::{
    collateral_value, collateral_value_fits, debt_value, debt_value_fits, MarketId,
    MarketPosition,
};

verus! {

/// Handle of a watched account: its position in the caller's list of them.
#[derive(Clone, Copy, Debug, PartialEq, Eq, Structural)]
pub struct AccountId {
    pub index: usize,
}

/// Repay amount that asks the ledger to repay as much as its close factor
/// allows; the ledger works out the exact amount itself.
pub const REPAY_MAX: u128 = u128::MAX;

/// One liquidation to submit.
#[derive(Clone, Copy, Debug, PartialEq, Eq, Structural)]
pub struct LiquidationOrder {
    pub account: AccountId,
    pub repay_market: MarketId,
    pub seize_market: MarketId,
    pub repay_amount: u128,
}

/// Market `i` holds the first largest debt value of the snapshot.
pub open spec fn is_repay_choice(s: Seq<MarketPosition>, i: int) -> bool {
    &&& 0 <= i < s.len()
    &&& forall|j: int| 0 <= j < s.len() ==> debt_value(#[trigger] s[j]) <= debt_value(s[i])
    &&& forall|j: int| 0 <= j < i ==> debt_value(#[trigger] s[j]) < debt_value(s[i])
}

pub open spec fn all_debt_values_fit(s: Seq<MarketPosition>) -> bool {
    forall|j: int| 0 <= j < s.len() ==> debt_value_fits(#[trigger] s[j])
}

pub open spec fn has_collateral(s: Seq<MarketPosition>) -> bool {
    exists|j: int| 0 <= j < s.len() && (#[trigger] s[j]).is_collateral
}

/// Market `i` holds the first largest collateral value among the markets
/// flagged as collateral; with no such market, the first market stands.
pub open spec fn is_seize_choice(s: Seq<MarketPosition>, i: int) -> bool {
    &&& 0 <= i < s.len()
    &&& if has_collateral(s) {
        &&& s[i].is_collateral
        &&& forall|j: int|
            0 <= j < s.len() && (#[trigger] s[j]).is_collateral ==> collateral_value(s[j])
                <= collateral_value(s[i])
        &&& forall|j: int|
            0 <= j < i && (#[trigger] s[j]).is_collateral ==> collateral_value(s[j])
                < collateral_value(s[i])
    } else {
        i == 0
    }
}

pub open spec fn all_collateral_values_fit(s: Seq<MarketPosition>) -> bool {
    forall|j: int| 0 <= j < s.len() && (#[trigger] s[j]).is_collateral ==> collateral_value_fits(s[j])
}

/// At most one market of a snapshot is its repay choice.
pub proof fn lemma_repay_choice_unique(s: Seq<MarketPosition>, i: int, k: int)
    requires
        is_repay_choice(s, i),
        is_repay_choice(s, k),
    ensures
        i == k,
{
    if i < k {
        assert(debt_value(s[i]) < debt_value(s[k]));
        assert(debt_value(s[i]) <= debt_value(s[k]));
        assert(debt_value(s[k]) <= debt_value(s[i]));
    } else if k < i {
        assert(debt_value(s[k]) < debt_value(s[i]));
        assert(debt_value(s[i]) <= debt_value(s[k]));
    }
}

/// At most one market of a snapshot is its seize choice.
pub proof fn lemma_seize_choice_unique(s: Seq<MarketPosition>, i: int, k: int)
    requires
        is_seize_choice(s, i),
        is_seize_choice(s, k),
    ensures
        i == k,
{
    if has_collateral(s) {
        if i < k {
            assert(s[i].is_collateral);
            assert(collateral_value(s[i]) < collateral_value(s[k]));
            assert(s[k].is_collateral);
            assert(collateral_value(s[k]) <= collateral_value(s[i]));
        } else if k < i {
            assert(s[k].is_collateral);
            assert(collateral_value(s[k]) < collateral_value(s[i]));
            assert(collateral_value(s[i]) <= collateral_value(s[k]));
        }
    }
}

/// Index of the market to repay: the first market with the largest debt value.
pub fn select_repay_market(snapshot: &Vec<MarketPosition>) -> (r: Result<usize, SimError>)
    ensures
        snapshot@.len() == 0 ==> r == Err::<usize, SimError>(SimError::NoPositions),
        snapshot@.len() > 0 && !all_debt_values_fit(snapshot@) ==> r == Err::<usize, SimError>(
            SimError::ValueOverflow,
        ),
        snapshot@.len() > 0 && all_debt_values_fit(snapshot@) ==> (r matches Ok(i)
            && is_repay_choice(snapshot@, i as int)),
{
    if snapshot.len() == 0 {
        return Err(SimError::NoPositions);
    }
    let mut best: usize = 0;
    let mut best_value: u128 = match snapshot[0].debt_value() {
        Some(v) => v,
        None => return Err(SimError::ValueOverflow),
    };
    let mut i: usize = 1;
    while i < snapshot.len()
        invariant
            1 <= i <= snapshot.len(),
            best < i,
            best_value == debt_value(snapshot@[best as int]),
            forall|j: int| 0 <= j < i ==> debt_value_fits(#[trigger] snapshot@[j]),
            forall|j: int| 0 <= j < i ==> debt_value(#[trigger] snapshot@[j]) <= best_value,
            forall|j: int| 0 <= j < best ==> debt_value(#[trigger] snapshot@[j]) < best_value,
        decreases snapshot.len() - i,
    {
        let value = match snapshot[i].debt_value() {
            Some(v) => v,
            None => return Err(SimError::ValueOverflow),
        };
        if value > best_value {
            best = i;
            best_value = value;
        }
        i = i + 1;
    }
    Ok(best)
}

/// Index of the market to seize: the first market flagged as collateral with
/// the largest collateral value, or the first market when none is flagged.
pub fn select_seize_market(snapshot: &Vec<MarketPosition>) -> (r: Result<usize, SimError>)
    ensures
        snapshot@.len() == 0 ==> r == Err::<usize, SimError>(SimError::NoPositions),
        snapshot@.len() > 0 && !all_collateral_values_fit(snapshot@) ==> r == Err::<
            usize,
            SimError,
        >(SimError::ValueOverflow),
        snapshot@.len() > 0 && all_collateral_values_fit(snapshot@) ==> (r matches Ok(i)
            && is_seize_choice(snapshot@, i as int)),
{
    if snapshot.len() == 0 {
        return Err(SimError::NoPositions);
    }
    let mut best: usize = 0;
    let mut found: bool = false;
    let mut best_value: u128 = 0;
    let mut i: usize = 0;
    while i < snapshot.len()
        invariant
            0 <= i <= snapshot.len(),
            snapshot@.len() > 0,
            best < snapshot@.len(),
            found ==> best < i && snapshot@[best as int].is_collateral && best_value
                == collateral_value(snapshot@[best as int]),
            !found ==> best == 0,
            found == exists|j: int| 0 <= j < i && (#[trigger] snapshot@[j]).is_collateral,
            forall|j: int|
                0 <= j < i && (#[trigger] snapshot@[j]).is_collateral ==> collateral_value_fits(
                    snapshot@[j],
                ),
            forall|j: int|
                0 <= j < i && (#[trigger] snapshot@[j]).is_collateral ==> collateral_value(
                    snapshot@[j],
                ) <= best_value,
            forall|j: int|
                0 <= j < best && (#[trigger] snapshot@[j]).is_collateral ==> collateral_value(
                    snapshot@[j],
                ) < best_value,
        decreases snapshot.len() - i,
    {
        if snapshot[i].is_collateral {
            let value = match snapshot[i].collateral_value() {
                Some(v) => v,
                None => return Err(SimError::ValueOverflow),
            };
            if !found || value > best_value {
                best = i;
                best_value = value;
                found = true;
            }
        }
        i = i + 1;
    }
    Ok(best)
}

/// Why no liquidation can be planned from snapshot `s`, if anything.
pub open spec fn snapshot_error(s: Seq<MarketPosition>) -> Option<SimError> {
    if s.len() == 0 {
        Some(SimError::NoPositions)
    } else if !(all_debt_values_fit(s) && all_collateral_values_fit(s)) {
        Some(SimError::ValueOverflow)
    } else {
        None
    }
}

/// `o` liquidates `account` by repaying the market chosen for repayment,
/// seizing the market chosen for seizure, with the maximum repay amount.
pub open spec fn is_liquidation_of(
    account: AccountId,
    s: Seq<MarketPosition>,
    o: LiquidationOrder,
) -> bool {
    &&& o.account == account
    &&& o.repay_amount == REPAY_MAX
    &&& exists|i: int| is_repay_choice(s, i) && o.repay_market == s[i].market
    &&& exists|k: int| is_seize_choice(s, k) && o.seize_market == s[k].market
}

/// The liquidation of `account`: repay the market holding its largest debt,
/// seize the market holding its largest collateral, and let the ledger repay
/// as much as it allows.
pub fn liquidation_order(account: AccountId, snapshot: &Vec<MarketPosition>) -> (r: Result<
    LiquidationOrder,
    SimError,
>)
    ensures
        snapshot_error(snapshot@) matches Some(e) ==> r == Err::<LiquidationOrder, SimError>(e),
        snapshot_error(snapshot@) is None ==> (r matches Ok(o) && is_liquidation_of(
            account,
            snapshot@,
            o,
        )),
{
    let repay = select_repay_market(snapshot)?;
    let seize = select_seize_market(snapshot)?;
    Ok(LiquidationOrder {
        account,
        repay_market: snapshot[repay].market,
        seize_market: snapshot[seize].market,
        repay_amount: REPAY_MAX,
    })
}

} // verus!
