use exactly_sim::error::SimError;
use exactly_sim::liquidation::{
    liquidation_order, select_repay_market, select_seize_market, AccountId, REPAY_MAX,
};
use exactly_sim::market::{FixedPosition, MarketId, MarketPosition};
use exactly_sim::valuation::scale_value;

const WAD: u128 = 1_000_000_000_000_000_000;

fn position(index: usize, borrow: u128, deposit: u128, is_collateral: bool) -> MarketPosition {
    MarketPosition {
        market: MarketId { index },
        floating_borrow_assets: borrow,
        fixed_borrow_positions: vec![],
        floating_deposit_assets: deposit,
        is_collateral,
        usd_price: WAD,
        decimals: 18,
    }
}

#[test]
fn scale_value_exact() {
    assert_eq!(scale_value(2_000_000, WAD, 6), Some(2 * WAD));
    assert_eq!(scale_value(1_999_999, 3, 6), Some(5));
    // one million tokens of 18 decimals at 1850 each
    assert_eq!(
        scale_value(1_000_000 * WAD, 1850 * WAD, 18),
        Some(1_850_000_000 * WAD)
    );
    assert_eq!(scale_value(7, 11, 0), Some(77));
}

#[test]
fn scale_value_beyond_split_decimals() {
    // 10^22 * 10^20 / 10^21 = 10^21
    assert_eq!(
        scale_value(10_000_000_000_000_000_000_000, 100_000_000_000_000_000_000, 21),
        Some(1_000_000_000_000_000_000_000)
    );
    assert_eq!(scale_value(u128::MAX, 1, 60), Some(0));
    assert_eq!(scale_value(123_456, 1, 3), Some(123));
}

#[test]
fn scale_value_overflow() {
    assert_eq!(scale_value(u128::MAX, 2, 0), None);
    assert_eq!(scale_value(u128::MAX, u128::MAX, 18), None);
}

#[test]
fn debt_value_counts_fixed_positions() {
    let mut p = position(0, 10 * WAD, 0, false);
    p.fixed_borrow_positions = vec![
        FixedPosition { principal: 5 * WAD, fee: WAD },
        FixedPosition { principal: 3 * WAD, fee: 0 },
    ];
    p.usd_price = 2 * WAD;
    assert_eq!(p.borrowed_assets(), Some(19 * WAD));
    assert_eq!(p.debt_value(), Some(38 * WAD));
}

#[test]
fn borrowed_assets_overflow() {
    let mut p = position(0, u128::MAX, 0, false);
    p.fixed_borrow_positions = vec![FixedPosition { principal: 0, fee: 1 }];
    assert_eq!(p.borrowed_assets(), None);
    assert_eq!(p.debt_value(), None);
}

#[test]
fn collateral_value_uses_decimals() {
    let mut p = position(0, 0, 3_000_000, true);
    p.decimals = 6;
    p.usd_price = 2 * WAD;
    assert_eq!(p.collateral_value(), Some(6 * WAD));
}

#[test]
fn repay_market_first_strict_maximum() {
    let snapshot = vec![
        position(0, 50 * WAD, 0, false),
        position(1, 80 * WAD, 0, false),
        position(2, 80 * WAD, 0, false),
    ];
    assert_eq!(select_repay_market(&snapshot), Ok(1));
}

#[test]
fn seize_market_skips_non_collateral() {
    let snapshot = vec![position(0, 0, 1000 * WAD, false), position(1, 0, 300 * WAD, true)];
    assert_eq!(select_seize_market(&snapshot), Ok(1));
}

#[test]
fn seize_market_first_strict_maximum() {
    let snapshot = vec![
        position(0, 0, 100 * WAD, true),
        position(1, 0, 400 * WAD, true),
        position(2, 0, 900 * WAD, false),
        position(3, 0, 400 * WAD, true),
    ];
    assert_eq!(select_seize_market(&snapshot), Ok(1));
}

#[test]
fn seize_market_without_collateral_is_first() {
    let snapshot = vec![position(0, 0, 10 * WAD, false), position(1, 0, 300 * WAD, false)];
    assert_eq!(select_seize_market(&snapshot), Ok(0));
}

#[test]
fn empty_snapshot_has_no_positions() {
    let snapshot: Vec<MarketPosition> = vec![];
    assert_eq!(select_repay_market(&snapshot), Err(SimError::NoPositions));
    assert_eq!(select_seize_market(&snapshot), Err(SimError::NoPositions));
    assert_eq!(
        liquidation_order(AccountId { index: 0 }, &snapshot),
        Err(SimError::NoPositions)
    );
}

#[test]
fn overflowing_value_is_reported() {
    let mut big = position(1, u128::MAX, 0, false);
    big.usd_price = 2 * WAD;
    big.decimals = 0;
    let snapshot = vec![position(0, WAD, 0, true), big];
    assert_eq!(select_repay_market(&snapshot), Err(SimError::ValueOverflow));
    assert_eq!(
        liquidation_order(AccountId { index: 0 }, &snapshot),
        Err(SimError::ValueOverflow)
    );
}

#[test]
fn order_repays_largest_debt_and_seizes_largest_collateral() {
    let snapshot = vec![
        position(4, 10 * WAD, 500 * WAD, true),
        position(7, 90 * WAD, 0, false),
        position(9, 0, 800 * WAD, true),
    ];
    let order = liquidation_order(AccountId { index: 3 }, &snapshot).unwrap();
    assert_eq!(order.account, AccountId { index: 3 });
    assert_eq!(order.repay_market, MarketId { index: 7 });
    assert_eq!(order.seize_market, MarketId { index: 9 });
    assert_eq!(order.repay_amount, REPAY_MAX);
}
