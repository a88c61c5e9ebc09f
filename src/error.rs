use vstd::prelude::*;

verus! {

/// Everything that stops a simulation run. None of these is recovered from:
/// the run ends and reports the first one.
#[derive(Clone, Copy, Debug, PartialEq, Eq, Structural)]
pub enum SimError {
    /// The price-process parameters describe no usable trajectory.
    Configuration,
    /// A price driver was advanced past the end of its trajectory.
    TrajectoryExhausted,
    /// A ledger operation was rejected or reverted.
    LedgerCallFailure,
    /// An account snapshot holds no market at all.
    NoPositions,
    /// A market valuation does not fit the 128-bit fixed-point range.
    ValueOverflow,
    /// An event arrived that the current stage does not expect.
    UnexpectedEvent,
}

} // verus!
