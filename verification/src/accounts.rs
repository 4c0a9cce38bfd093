//! The three record kinds of the ledger and the transfer instructions the
//! operations emit.
//!
//! Identities (authorities, asset mints, owners) are opaque to the core: the
//! surrounding runtime resolves real addresses and verifies signatures before
//! an operation runs, so the core carries them as plain `u64` identifiers.

use vstd::prelude::*;

verus! {

/// Registry of pools under one authority.
#[derive(Clone, Copy, Debug, PartialEq, Eq, Structural)]
pub struct StateAccount {
    /// Identity permitted to create and modify pools under this registry.
    pub authority: u64,
    /// Asset used for reward payouts; immutable after creation.
    pub reward_asset: u64,
    /// Sum of `point` weights across all pools created under this registry.
    pub total_point: u64,
    /// Tokens-per-second baseline rate; always positive.
    pub reward_rate_base: u64,
    /// Next pool id to hand out; each pool of this registry gets a unique one.
    pub next_pool_id: u8,
}

/// One staking pool: a staked asset with its rate, lock and penalty
/// parameters and its aggregate balances.
#[derive(Clone, Copy, Debug, PartialEq, Eq, Structural)]
pub struct FarmPoolAccount {
    /// The owning registry's authority at creation time; immutable.
    pub authority: u64,
    /// Identifier of the staked asset; immutable.
    pub asset: u64,
    /// Id assigned from the registry's `next_pool_id`; immutable.
    pub id: u8,
    /// Cross-pool weighting parameter; positive, immutable.
    pub point: u64,
    /// Reward-scaling parameter applied at harvest; positive, immutable.
    pub amount_multiplier: u64,
    /// Annual percentage yield in integer percentage points; positive,
    /// immutable.
    pub apy: u64,
    /// Seconds a deposit must remain staked before penalty-free withdrawal;
    /// positive, immutable.
    pub lock_time: u64,
    /// Early-withdrawal penalty percentage; always below 100.
    pub penalty: u64,
    /// Gates new stakes; positive means active.
    pub activated: u8,
    /// Aggregate of the users' currently staked amounts.
    pub total_staked: u64,
    /// Reward-asset balance this pool has committed to pay out
    /// (funded minus paid).
    pub reward_liability: u64,
    /// Count of positions ever created under this pool; never decremented.
    pub total_users: u64,
}

/// One user's stake record within one pool.
#[derive(Clone, Copy, Debug, PartialEq, Eq, Structural)]
pub struct FarmPoolUserAccount {
    /// Id of the pool this position belongs to; immutable.
    pub pool_ref: u8,
    /// Identity controlling this position; immutable.
    pub owner: u64,
    /// Currently staked balance.
    pub amount: u64,
    /// Accrued-but-unharvested reward, kept wide so accumulation cannot
    /// overflow prematurely; reset to zero on harvest.
    pub pending_reward: u128,
    /// Timestamp of the most recent stake or unstake affecting this
    /// position; baseline for the next reward computation.
    pub last_event_time: u64,
}

/// Which vaults a transfer moves value between, and who authorizes it.
#[derive(Clone, Copy, Debug, PartialEq, Eq, Structural)]
pub enum TransferKind {
    /// Staked asset, user's account to the pool's stake vault; authorized by
    /// the caller.
    StakeDeposit,
    /// Staked asset, pool's stake vault to the user; authorized by the
    /// pool's own signing capability.
    UnstakePayout,
    /// Reward asset, pool's reward vault to the user; authorized by the
    /// pool's own signing capability.
    RewardPayout,
    /// Reward asset, funder's account to the pool's reward vault; authorized
    /// by the caller.
    RewardFunding,
    /// Reward asset, pool's reward vault to a destination chosen by the
    /// authority; authorized by the pool's own signing capability.
    AdminWithdrawal,
}

/// The single asset movement a mutating operation asks the external
/// transfer service to execute.
#[derive(Clone, Copy, Debug, PartialEq, Eq, Structural)]
pub struct TransferInstruction {
    /// Pool whose vaults are involved.
    pub pool_id: u8,
    /// Direction and authorization of the movement.
    pub kind: TransferKind,
    /// How much to move.
    pub amount: u64,
}

/// Well-formedness of a registry: the baseline rate is positive.
pub open spec fn state_wf(s: StateAccount) -> bool {
    s.reward_rate_base > 0
}

/// Well-formedness of a pool: the immutable parameters are positive and the
/// penalty is a percentage strictly below 100. Established at creation and
/// preserved by every operation.
pub open spec fn pool_wf(p: FarmPoolAccount) -> bool {
    &&& p.point > 0
    &&& p.amount_multiplier > 0
    &&& p.apy > 0
    &&& p.lock_time > 0
    &&& p.penalty < 100
}

} // verus!
