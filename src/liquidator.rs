use vstd::prelude::*;
use crate::error::SimError;
use crate::health::is_liquidatable;
use crate::liquidation::{
    is_liquidation_of, liquidation_order, snapshot_error, AccountId, LiquidationOrder,
};
use crate::market::MarketPosition;

verus! {

/// Where a liquidation scan stands.
#[derive(Clone, Copy, Debug, PartialEq, Eq, Structural)]
pub enum ScanStage {
    /// No scan in progress.
    Idle,
    /// Waiting for the current account's collateral and debt totals.
    AwaitLiquidity,
    /// Waiting for the current account's per-market snapshot.
    AwaitPositions,
    /// Waiting for the current account's liquidation to commit.
    AwaitSubmission,
}

/// What the ledger answered to the last action.
#[derive(Clone, Debug)]
pub enum ScanEvent {
    Liquidity { collateral: u128, debt: u128 },
    Positions { snapshot: Vec<MarketPosition> },
    Submitted,
}

/// What the ledger must be asked next.
#[derive(Clone, Copy, Debug, PartialEq, Eq, Structural)]
pub enum ScanAction {
    QueryLiquidity { account: AccountId },
    QueryPositions { account: AccountId },
    Submit { order: LiquidationOrder },
    Done,
}

/// Watches a fixed, ordered list of accounts and liquidates, one at a time
/// and in list order, each one whose collateral falls below its debt.
pub struct Liquidator {
    pub accounts: Vec<AccountId>,
    /// Position in `accounts` of the account under examination.
    pub cursor: usize,
    pub stage: ScanStage,
}

/// Cursor, stage and action once the account at `cursor` is dealt with.
pub open spec fn move_on(accounts: Seq<AccountId>, cursor: int) -> (int, ScanStage, ScanAction) {
    if cursor + 1 < accounts.len() {
        (
            cursor + 1,
            ScanStage::AwaitLiquidity,
            ScanAction::QueryLiquidity { account: accounts[cursor + 1] },
        )
    } else {
        (0, ScanStage::Idle, ScanAction::Done)
    }
}

impl Liquidator {
    pub fn new(accounts: Vec<AccountId>) -> (r: Self)
        ensures
            r.accounts@ == accounts@,
            r.cursor == 0,
            r.stage == ScanStage::Idle,
    {
        Liquidator { accounts, cursor: 0, stage: ScanStage::Idle }
    }

    /// Starts a scan over every watched account, from the first.
    pub fn check_liquidations(&mut self) -> (r: ScanAction)
        ensures
            final(self).accounts@ == old(self).accounts@,
            final(self).cursor == 0,
            old(self).accounts@.len() == 0 ==> r == ScanAction::Done && final(self).stage
                == ScanStage::Idle,
            old(self).accounts@.len() > 0 ==> r == (ScanAction::QueryLiquidity {
                account: old(self).accounts@[0],
            }) && final(self).stage == ScanStage::AwaitLiquidity,
    {
        self.cursor = 0;
        if self.accounts.len() == 0 {
            self.stage = ScanStage::Idle;
            ScanAction::Done
        } else {
            self.stage = ScanStage::AwaitLiquidity;
            ScanAction::QueryLiquidity { account: self.accounts[0] }
        }
    }

    fn advance(&mut self) -> (r: ScanAction)
        requires
            old(self).cursor < old(self).accounts@.len(),
        ensures
            final(self).accounts@ == old(self).accounts@,
            (final(self).cursor as int, final(self).stage, r) == move_on(
                old(self).accounts@,
                old(self).cursor as int,
            ),
    {
        let len = self.accounts.len();
        let next = self.cursor + 1;
        if next < len {
            self.cursor = next;
            self.stage = ScanStage::AwaitLiquidity;
            ScanAction::QueryLiquidity { account: self.accounts[self.cursor] }
        } else {
            self.cursor = 0;
            self.stage = ScanStage::Idle;
            ScanAction::Done
        }
    }

    /// Whether the scan, standing at `stage`, waits for an event of this kind.
    pub open spec fn expects(&self, event: ScanEvent) -> bool {
        &&& self.cursor < self.accounts@.len()
        &&& match self.stage {
            ScanStage::AwaitLiquidity => event is Liquidity,
            ScanStage::AwaitPositions => event is Positions,
            ScanStage::AwaitSubmission => event is Submitted,
            ScanStage::Idle => false,
        }
    }

    /// Takes the ledger's answer to the last action and returns the next one.
    /// A solvent account (collateral at least its debt) is passed over; an
    /// insolvent one is liquidated before the scan moves on.
    pub fn handle(&mut self, event: ScanEvent) -> (r: Result<ScanAction, SimError>)
        ensures
            final(self).accounts@ == old(self).accounts@,
            !old(self).expects(event) ==> r == Err::<ScanAction, SimError>(
                SimError::UnexpectedEvent,
            ) && final(self).stage == old(self).stage && final(self).cursor == old(self).cursor,
            old(self).expects(event) ==> (event matches ScanEvent::Liquidity { collateral, debt }
                ==> if collateral < debt {
                r == Ok::<ScanAction, SimError>(
                    ScanAction::QueryPositions { account: old(self).accounts@[old(self).cursor as int] },
                ) && final(self).stage == ScanStage::AwaitPositions && final(self).cursor == old(
                    self,
                ).cursor
            } else {
                r == Ok::<ScanAction, SimError>(
                    move_on(old(self).accounts@, old(self).cursor as int).2,
                ) && final(self).cursor == move_on(old(self).accounts@, old(self).cursor as int).0
                    && final(self).stage == move_on(old(self).accounts@, old(self).cursor as int).1
            }),
            old(self).expects(event) ==> (event matches ScanEvent::Positions { snapshot }
                ==> match snapshot_error(snapshot@) {
                Some(e) => r == Err::<ScanAction, SimError>(e) && final(self).stage
                    == ScanStage::Idle,
                None => final(self).stage == ScanStage::AwaitSubmission && final(self).cursor
                    == old(self).cursor && (r matches Ok(ScanAction::Submit { order })
                    && is_liquidation_of(old(self).accounts@[old(self).cursor as int], snapshot@, order)),
            }),
            old(self).expects(event) ==> (event is Submitted ==> r == Ok::<ScanAction, SimError>(
                move_on(old(self).accounts@, old(self).cursor as int).2,
            ) && final(self).cursor == move_on(old(self).accounts@, old(self).cursor as int).0
                && final(self).stage == move_on(old(self).accounts@, old(self).cursor as int).1),
    {
        if self.cursor >= self.accounts.len() {
            return Err(SimError::UnexpectedEvent);
        }
        match self.stage {
            ScanStage::AwaitLiquidity => match event {
                ScanEvent::Liquidity { collateral, debt } => {
                    if is_liquidatable(collateral, debt) {
                        self.stage = ScanStage::AwaitPositions;
                        Ok(ScanAction::QueryPositions { account: self.accounts[self.cursor] })
                    } else {
                        Ok(self.advance())
                    }
                },
                _ => Err(SimError::UnexpectedEvent),
            },
            ScanStage::AwaitPositions => match event {
                ScanEvent::Positions { snapshot } => {
                    match liquidation_order(self.accounts[self.cursor], &snapshot) {
                        Ok(order) => {
                            self.stage = ScanStage::AwaitSubmission;
                            Ok(ScanAction::Submit { order })
                        },
                        Err(e) => {
                            self.stage = ScanStage::Idle;
                            Err(e)
                        },
                    }
                },
                _ => Err(SimError::UnexpectedEvent),
            },
            ScanStage::AwaitSubmission => match event {
                ScanEvent::Submitted => Ok(self.advance()),
                _ => Err(SimError::UnexpectedEvent),
            },
            ScanStage::Idle => Err(SimError::UnexpectedEvent),
        }
    }
}

} // verus!
