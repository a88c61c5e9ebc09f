use vstd::prelude::*;
use crate::error::SimError;

verus! {

/// Replays one price trajectory into a market's price feed, one sample per
/// tick. Samples are 18-decimal fixed-point prices; sample 0 is the initial
/// price, already applied when the feed was created, so playback starts at 1.
pub struct PriceChanger {
    pub symbol: String,
    pub trajectory: Vec<i128>,
    pub index: usize,
}

/// One playback step from cursor `index`: the sample there and the cursor
/// moved by one, or exhaustion with the cursor left in place.
pub open spec fn playback_step(samples: Seq<i128>, index: int) -> (int, Result<i128, SimError>) {
    if 0 <= index < samples.len() {
        (index + 1, Ok(samples[index]))
    } else {
        (index, Err(SimError::TrajectoryExhausted))
    }
}

/// The cursor after `k` playback steps from `index`.
pub open spec fn cursor_after(samples: Seq<i128>, index: int, k: nat) -> int
    decreases k,
{
    if k == 0 {
        index
    } else {
        playback_step(samples, cursor_after(samples, index, (k - 1) as nat)).0
    }
}

impl PriceChanger {
    pub open spec fn wf(&self) -> bool {
        &&& self.trajectory@.len() >= 2
        &&& 1 <= self.index <= self.trajectory@.len()
    }

    /// Number of steps the trajectory was generated with.
    pub open spec fn step_count(&self) -> int {
        self.trajectory@.len() - 1
    }

    /// A driver for `trajectory`, which must hold the initial price and at
    /// least one step after it.
    pub fn new(symbol: &str, trajectory: Vec<i128>) -> (r: Result<Self, SimError>)
        ensures
            trajectory@.len() < 2 ==> r == Err::<Self, SimError>(SimError::Configuration),
            trajectory@.len() >= 2 ==> (r matches Ok(p) && p.wf() && p.symbol@ == symbol@
                && p.trajectory@ == trajectory@ && p.index == 1),
    {
        if trajectory.len() < 2 {
            return Err(SimError::Configuration);
        }
        Ok(PriceChanger { symbol: symbol.to_string(), trajectory, index: 1 })
    }

    /// The next price to push to the feed, moving the cursor on by one; fails
    /// once the trajectory is exhausted.
    pub fn update_price(&mut self) -> (r: Result<i128, SimError>)
        ensures
            (final(self).index as int, r) == playback_step(
                old(self).trajectory@,
                old(self).index as int,
            ),
            final(self).trajectory@ == old(self).trajectory@,
            final(self).symbol@ == old(self).symbol@,
            old(self).wf() ==> final(self).wf(),
    {
        if self.index < self.trajectory.len() {
            let price = self.trajectory[self.index];
            self.index = self.index + 1;
            Ok(price)
        } else {
            Err(SimError::TrajectoryExhausted)
        }
    }
}

/// From a fresh driver, each of the first `step_count` advances yields the
/// next sample, and the one after them finds the trajectory exhausted.
pub proof fn lemma_playback_horizon(samples: Seq<i128>, k: nat)
    requires
        samples.len() >= 2,
        k <= samples.len() - 1,
    ensures
        cursor_after(samples, 1, k) == 1 + k,
        k < samples.len() - 1 ==> playback_step(samples, cursor_after(samples, 1, k)).1 == Ok::<
            i128,
            SimError,
        >(samples[1 + k as int]),
        k == samples.len() - 1 ==> playback_step(samples, cursor_after(samples, 1, k)).1 == Err::<
            i128,
            SimError,
        >(SimError::TrajectoryExhausted),
    decreases k,
{
    if k > 0 {
        lemma_playback_horizon(samples, (k - 1) as nat);
    }
}

} // verus!
