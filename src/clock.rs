use vstd::prelude::*;
use crate::error::SimError;

verus! {

/// What the driving loop must do next.
#[derive(Clone, Copy, Debug, PartialEq, Eq, Structural)]
pub enum Action {
    /// Move the ledger to this block and timestamp.
    AdvanceBlock { number: u64, timestamp: u64 },
    /// Push the next price sample of this market (by its position).
    UpdatePrice { market: usize },
    /// Scan every watched account for liquidations.
    CheckLiquidations,
    /// The configured ticks are all done.
    Stop,
}

/// Sequences a run: each tick advances the block, then updates every market's
/// price in order, then scans for liquidations.
pub struct SimulationClock {
    pub market_count: usize,
    pub last_tick: u64,
    pub start_timestamp: u64,
    pub block_time: u64,
    /// Current tick, from 1.
    pub tick: u64,
    /// Position within the tick: 0 for the block, 1 to `market_count` for the
    /// prices, `market_count + 1` for the scan.
    pub slot: usize,
}

/// The largest of a list of lengths, 0 for none.
pub open spec fn longest(s: Seq<usize>) -> int
    decreases s.len(),
{
    if s.len() == 0 {
        0
    } else if longest(s.drop_last()) >= s.last() {
        longest(s.drop_last())
    } else {
        s.last() as int
    }
}

pub open spec fn block_timestamp(start: u64, block_time: u64, tick: u64) -> int {
    start + tick * block_time
}

impl SimulationClock {
    pub open spec fn wf(&self) -> bool {
        &&& 1 <= self.tick
        &&& self.tick <= self.last_tick + 1
        &&& self.last_tick < u64::MAX
        &&& self.slot <= self.market_count + 1
        &&& self.market_count < usize::MAX
        &&& self.block_time >= 1
        &&& block_timestamp(self.start_timestamp, self.block_time, self.last_tick) <= u64::MAX
    }

    /// The action due in the current state.
    pub open spec fn due(&self) -> Action {
        if self.tick > self.last_tick {
            Action::Stop
        } else if self.slot == 0 {
            Action::AdvanceBlock {
                number: self.tick,
                timestamp: block_timestamp(
                    self.start_timestamp,
                    self.block_time,
                    self.tick,
                ) as u64,
            }
        } else if self.slot <= self.market_count {
            Action::UpdatePrice { market: (self.slot - 1) as usize }
        } else {
            Action::CheckLiquidations
        }
    }

    /// Tick and slot after the due action.
    pub open spec fn successor(&self) -> (u64, usize) {
        if self.tick > self.last_tick {
            (self.tick, self.slot)
        } else if self.slot <= self.market_count {
            (self.tick, (self.slot + 1) as usize)
        } else {
            ((self.tick + 1) as u64, 0)
        }
    }

    /// A clock for markets whose trajectories have the given lengths: it runs
    /// one tick per sample after the first of the longest trajectory.
    pub fn new(trajectory_lengths: &Vec<usize>, start_timestamp: u64, block_time: u64) -> (r: Result<
        Self,
        SimError,
    >)
        ensures
            r matches Ok(c) ==> c.wf() && c.market_count == trajectory_lengths@.len()
                && c.last_tick == longest(trajectory_lengths@) - 1 && c.start_timestamp
                == start_timestamp && c.block_time == block_time && c.tick == 1 && c.slot == 0,
            r is Err <==> (longest(trajectory_lengths@) < 2 || block_time == 0
                || trajectory_lengths@.len() >= usize::MAX || block_timestamp(
                start_timestamp,
                block_time,
                (longest(trajectory_lengths@) - 1) as u64,
            ) > u64::MAX),
            r matches Err(e) ==> e == SimError::Configuration,
    {
        let mut longest_len: usize = 0;
        let mut i: usize = 0;
        while i < trajectory_lengths.len()
            invariant
                i <= trajectory_lengths@.len(),
                longest_len == longest(trajectory_lengths@.take(i as int)),
            decreases trajectory_lengths.len() - i,
        {
            assert(trajectory_lengths@.take(i + 1).drop_last() =~= trajectory_lengths@.take(
                i as int,
            ));
            if trajectory_lengths[i] > longest_len {
                longest_len = trajectory_lengths[i];
            }
            i = i + 1;
        }
        assert(trajectory_lengths@.take(i as int) =~= trajectory_lengths@);
        if longest_len < 2 || block_time == 0 || trajectory_lengths.len() == usize::MAX {
            return Err(SimError::Configuration);
        }
        let last_tick = (longest_len - 1) as u64;
        let span = match last_tick.checked_mul(block_time) {
            Some(v) => v,
            None => {
                proof {
                    assert(last_tick * block_time <= start_timestamp + last_tick * block_time)
                        by (nonlinear_arith)
                        requires
                            last_tick >= 0,
                            block_time >= 0,
                            start_timestamp >= 0,
                    ;
                }
                return Err(SimError::Configuration);
            },
        };
        if start_timestamp.checked_add(span).is_none() {
            return Err(SimError::Configuration);
        }
        Ok(SimulationClock {
            market_count: trajectory_lengths.len(),
            last_tick,
            start_timestamp,
            block_time,
            tick: 1,
            slot: 0,
        })
    }

    /// Hands out the due action and moves on to the next one.
    pub fn next_action(&mut self) -> (r: Action)
        requires
            old(self).wf(),
        ensures
            r == old(self).due(),
            (final(self).tick, final(self).slot) == old(self).successor(),
            final(self).market_count == old(self).market_count,
            final(self).last_tick == old(self).last_tick,
            final(self).start_timestamp == old(self).start_timestamp,
            final(self).block_time == old(self).block_time,
            final(self).wf(),
    {
        if self.tick > self.last_tick {
            return Action::Stop;
        }
        if self.slot == 0 {
            proof {
                assert(self.tick * self.block_time <= self.last_tick * self.block_time)
                    by (nonlinear_arith)
                    requires
                        self.tick <= self.last_tick,
                ;
            }
            let timestamp = self.start_timestamp + self.tick * self.block_time;
            self.slot = 1;
            Action::AdvanceBlock { number: self.tick, timestamp }
        } else if self.slot <= self.market_count {
            let market = self.slot - 1;
            self.slot = self.slot + 1;
            Action::UpdatePrice { market }
        } else {
            self.tick = self.tick + 1;
            self.slot = 0;
            Action::CheckLiquidations
        }
    }
}

/// The clock after `k` actions from `c`.
pub open spec fn run(c: SimulationClock, k: nat) -> SimulationClock
    decreases k,
{
    if k == 0 {
        c
    } else {
        let prev = run(c, (k - 1) as nat);
        SimulationClock { tick: prev.successor().0, slot: prev.successor().1, ..prev }
    }
}

/// Within every configured tick the block is advanced first, then every
/// market's price is updated in market order, and only then are accounts
/// scanned; the next action after the scan opens the following tick.
pub proof fn lemma_tick_order(c: SimulationClock, j: nat)
    requires
        c.wf(),
        c.slot == 0,
        c.tick <= c.last_tick,
        j <= c.market_count + 2,
    ensures
        j <= c.market_count + 1 ==> run(c, j).tick == c.tick && run(c, j).slot == j,
        j == 0 ==> run(c, j).due() == (Action::AdvanceBlock {
            number: c.tick,
            timestamp: block_timestamp(c.start_timestamp, c.block_time, c.tick) as u64,
        }),
        1 <= j <= c.market_count ==> run(c, j).due() == (Action::UpdatePrice {
            market: (j - 1) as usize,
        }),
        j == c.market_count + 1 ==> run(c, j).due() == Action::CheckLiquidations,
        j == c.market_count + 2 ==> run(c, j).tick == c.tick + 1 && run(c, j).slot == 0,
        run(c, j).market_count == c.market_count,
        run(c, j).last_tick == c.last_tick,
        run(c, j).start_timestamp == c.start_timestamp,
        run(c, j).block_time == c.block_time,
    decreases j,
{
    if j > 0 {
        lemma_tick_order(c, (j - 1) as nat);
    }
}

} // verus!
