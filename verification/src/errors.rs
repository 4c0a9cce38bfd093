//! Error kinds reported by the accounting core.
//!
//! Every operation either applies all of its ledger changes or fails with one
//! of these kinds and leaves the ledger untouched.

use vstd::prelude::*;

verus! {

/// Why an operation was rejected.
#[derive(Clone, Copy, Debug, PartialEq, Eq, Structural)]
pub enum ErrorCode {
    /// A caller-supplied parameter violates a stated invariant
    /// (zero amount, zero rate, penalty of 100 or more, ...).
    InvalidParams,
    /// An unstake asked for more than the position holds.
    UnstakeOverAmount,
    /// The pool's recorded reward liability cannot cover the harvest.
    HarvestOverAmount,
    /// A stake was attempted on a deactivated pool.
    PoolDeactivated,
    /// A checked addition or multiplication would wrap.
    MathOverflow,
    /// A checked subtraction would go negative.
    MathUnderflow,
    /// A wide value cannot be narrowed to its target width.
    MathPanic,
}

} // verus!
