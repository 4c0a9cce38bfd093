//! The staking operations.
//!
//! Each operation has a spec-level transition function giving its exact
//! outcome — the new records, the emitted transfer instruction, or the error
//! — and an executable function proved to realize that transition. On any
//! error the records are left unchanged: no operation applies partially.

use vstd::arithmetic::mul::lemma_mul_upper_bound;
use vstd::prelude::*;

use crate::accounts::FarmPoolAccount;
use crate::accounts::FarmPoolUserAccount;
use crate::accounts::StateAccount;
use crate::accounts::TransferInstruction;
use crate::accounts::TransferKind;
use crate::accounts::pool_wf;
use crate::accounts::state_wf;
use crate::errors::ErrorCode;
use crate::reward::SECONDS_PER_YEAR;
use crate::reward::accrued_reward;
use crate::reward::harvest_reward_of;
use crate::reward::reward_of;

verus! {

/// Outcome of `create_state`.
pub open spec fn create_state_spec(authority: u64, reward_asset: u64, reward_rate_base: u64)
    -> Result<StateAccount, ErrorCode> {
    if reward_rate_base == 0 {
        Err(ErrorCode::InvalidParams)
    } else {
        Ok(
            StateAccount {
                authority,
                reward_asset,
                total_point: 0,
                reward_rate_base,
                next_pool_id: 0,
            },
        )
    }
}

/// Creates the registry for `authority`. Fails with `InvalidParams` exactly
/// when the baseline rate is zero.
pub fn create_state(authority: u64, reward_asset: u64, reward_rate_base: u64) -> (r: Result<
    StateAccount,
    ErrorCode,
>)
    ensures
        r == create_state_spec(authority, reward_asset, reward_rate_base),
        r matches Ok(s) ==> state_wf(s),
{
    if reward_rate_base == 0 {
        return Err(ErrorCode::InvalidParams);
    }
    Ok(
        StateAccount {
            authority,
            reward_asset,
            total_point: 0,
            reward_rate_base,
            next_pool_id: 0,
        },
    )
}

/// Outcome of `create_pool`: the updated registry and the new pool.
pub open spec fn create_pool_spec(
    state: StateAccount,
    asset: u64,
    point: u64,
    amount_multiplier: u64,
    apy: u64,
    lock_time: u64,
    penalty: u64,
) -> Result<(StateAccount, FarmPoolAccount), ErrorCode> {
    if !(point > 0 && amount_multiplier > 0 && apy > 0 && lock_time > 0 && penalty < 100) {
        Err(ErrorCode::InvalidParams)
    } else if state.total_point + point > u64::MAX {
        Err(ErrorCode::MathOverflow)
    } else if state.next_pool_id + 1 > u8::MAX {
        Err(ErrorCode::MathOverflow)
    } else {
        Ok(
            (
                StateAccount {
                    total_point: (state.total_point + point) as u64,
                    next_pool_id: (state.next_pool_id + 1) as u8,
                    ..state
                },
                FarmPoolAccount {
                    authority: state.authority,
                    asset,
                    id: state.next_pool_id,
                    point,
                    amount_multiplier,
                    apy,
                    lock_time,
                    penalty,
                    activated: 1,
                    total_staked: 0,
                    reward_liability: 0,
                    total_users: 0,
                },
            ),
        )
    }
}

/// Creates a pool under `state`, allocating the next pool id and adding its
/// weight to the registry's total. Fails with `InvalidParams` when a
/// parameter is out of range, and with `MathOverflow` when the weight total
/// or the id counter would wrap. On failure the registry is unchanged.
pub fn create_pool(
    state: &mut StateAccount,
    asset: u64,
    point: u64,
    amount_multiplier: u64,
    apy: u64,
    lock_time: u64,
    penalty: u64,
) -> (r: Result<FarmPoolAccount, ErrorCode>)
    ensures
        match create_pool_spec(*old(state), asset, point, amount_multiplier, apy, lock_time, penalty) {
            Ok(t) => *final(state) == t.0 && r == Ok::<FarmPoolAccount, ErrorCode>(t.1),
            Err(e) => *final(state) == *old(state) && r == Err::<FarmPoolAccount, ErrorCode>(e),
        },
        r matches Ok(p) ==> pool_wf(p) && p.total_staked == 0 && p.reward_liability == 0
            && p.id == old(state).next_pool_id,
{
    if !(point > 0 && amount_multiplier > 0 && apy > 0 && lock_time > 0 && penalty < 100) {
        return Err(ErrorCode::InvalidParams);
    }
    let new_total_point = match state.total_point.checked_add(point) {
        Some(v) => v,
        None => { return Err(ErrorCode::MathOverflow) },
    };
    let new_next_id = match state.next_pool_id.checked_add(1) {
        Some(v) => v,
        None => { return Err(ErrorCode::MathOverflow) },
    };
    let pool = FarmPoolAccount {
        authority: state.authority,
        asset,
        id: state.next_pool_id,
        point,
        amount_multiplier,
        apy,
        lock_time,
        penalty,
        activated: 1,
        total_staked: 0,
        reward_liability: 0,
        total_users: 0,
    };
    state.total_point = new_total_point;
    state.next_pool_id = new_next_id;
    Ok(pool)
}

/// Outcome of `update_pool`.
pub open spec fn update_pool_spec(pool: FarmPoolAccount, flag: u8, penalty: u64) -> Result<
    FarmPoolAccount,
    ErrorCode,
> {
    if penalty >= 100 {
        Err(ErrorCode::InvalidParams)
    } else {
        Ok(FarmPoolAccount { activated: flag, penalty, ..pool })
    }
}

/// Sets the pool's activation flag and penalty. Fails with `InvalidParams`
/// exactly when the new penalty is 100 or more, leaving the pool unchanged.
pub fn update_pool(pool: &mut FarmPoolAccount, flag: u8, penalty: u64) -> (r: Result<
    (),
    ErrorCode,
>)
    ensures
        match update_pool_spec(*old(pool), flag, penalty) {
            Ok(p) => *final(pool) == p && r is Ok,
            Err(e) => *final(pool) == *old(pool) && r == Err::<(), ErrorCode>(e),
        },
        pool_wf(*old(pool)) ==> pool_wf(*final(pool)),
{
    if penalty >= 100 {
        return Err(ErrorCode::InvalidParams);
    }
    pool.activated = flag;
    pool.penalty = penalty;
    Ok(())
}

/// Outcome of `fund_reward_token`: the updated pool and the funding transfer.
pub open spec fn fund_spec(pool: FarmPoolAccount, amount: u64) -> Result<
    (FarmPoolAccount, TransferInstruction),
    ErrorCode,
> {
    if amount == 0 {
        Err(ErrorCode::InvalidParams)
    } else if pool.reward_liability + amount > u64::MAX {
        Err(ErrorCode::MathOverflow)
    } else {
        Ok(
            (
                FarmPoolAccount { reward_liability: (pool.reward_liability + amount) as u64, ..pool },
                TransferInstruction { pool_id: pool.id, kind: TransferKind::RewardFunding, amount },
            ),
        )
    }
}

/// Raises the pool's reward liability by `amount` and emits the instruction
/// moving that much reward asset from the funder into the pool's reward
/// vault. Fails with `InvalidParams` on a zero amount and `MathOverflow`
/// when the liability would wrap; on failure the pool is unchanged.
pub fn fund_reward_token(pool: &mut FarmPoolAccount, amount: u64) -> (r: Result<
    TransferInstruction,
    ErrorCode,
>)
    ensures
        match fund_spec(*old(pool), amount) {
            Ok(t) => *final(pool) == t.0 && r == Ok::<TransferInstruction, ErrorCode>(t.1),
            Err(e) => *final(pool) == *old(pool) && r == Err::<TransferInstruction, ErrorCode>(e),
        },
{
    if amount == 0 {
        return Err(ErrorCode::InvalidParams);
    }
    let new_liability = match pool.reward_liability.checked_add(amount) {
        Some(v) => v,
        None => { return Err(ErrorCode::MathOverflow) },
    };
    pool.reward_liability = new_liability;
    Ok(TransferInstruction { pool_id: pool.id, kind: TransferKind::RewardFunding, amount })
}

/// Outcome of `create_user`: the updated pool and the fresh position.
pub open spec fn create_user_spec(pool: FarmPoolAccount, owner: u64) -> Result<
    (FarmPoolAccount, FarmPoolUserAccount),
    ErrorCode,
> {
    if pool.total_users + 1 > u64::MAX {
        Err(ErrorCode::MathOverflow)
    } else {
        Ok(
            (
                FarmPoolAccount { total_users: (pool.total_users + 1) as u64, ..pool },
                FarmPoolUserAccount {
                    pool_ref: pool.id,
                    owner,
                    amount: 0,
                    pending_reward: 0,
                    last_event_time: 0,
                },
            ),
        )
    }
}

/// Creates `owner`'s position under the pool and counts it. The surrounding
/// runtime guarantees at most one position per (owner, pool) pair. Fails
/// with `MathOverflow` exactly when the user count would wrap.
pub fn create_user(pool: &mut FarmPoolAccount, owner: u64) -> (r: Result<
    FarmPoolUserAccount,
    ErrorCode,
>)
    ensures
        match create_user_spec(*old(pool), owner) {
            Ok(t) => *final(pool) == t.0 && r == Ok::<FarmPoolUserAccount, ErrorCode>(t.1),
            Err(e) => *final(pool) == *old(pool) && r == Err::<FarmPoolUserAccount, ErrorCode>(e),
        },
        r matches Ok(u) ==> u.amount == 0 && u.pending_reward == 0,
{
    let new_total_users = match pool.total_users.checked_add(1) {
        Some(v) => v,
        None => { return Err(ErrorCode::MathOverflow) },
    };
    let user = FarmPoolUserAccount {
        pool_ref: pool.id,
        owner,
        amount: 0,
        pending_reward: 0,
        last_event_time: 0,
    };
    pool.total_users = new_total_users;
    Ok(user)
}

/// Outcome of `stake`: the updated pool and position and the deposit
/// transfer.
pub open spec fn stake_spec(
    pool: FarmPoolAccount,
    user: FarmPoolUserAccount,
    amount: u64,
    now: u64,
) -> Result<(FarmPoolAccount, FarmPoolUserAccount, TransferInstruction), ErrorCode> {
    if pool.activated == 0 {
        Err(ErrorCode::PoolDeactivated)
    } else if amount == 0 {
        Err(ErrorCode::InvalidParams)
    } else if user.amount + amount > u64::MAX {
        Err(ErrorCode::MathOverflow)
    } else if pool.total_staked + amount > u64::MAX {
        Err(ErrorCode::MathOverflow)
    } else {
        Ok(
            (
                FarmPoolAccount { total_staked: (pool.total_staked + amount) as u64, ..pool },
                FarmPoolUserAccount {
                    amount: (user.amount + amount) as u64,
                    last_event_time: now,
                    ..user
                },
                TransferInstruction { pool_id: pool.id, kind: TransferKind::StakeDeposit, amount },
            ),
        )
    }
}

/// Adds `amount` to the position and the pool total, re-baselines accrual to
/// `now`, and emits the deposit instruction. Fails with `PoolDeactivated`
/// when the pool is inactive, with `InvalidParams` on a zero amount, and
/// with `MathOverflow` when a balance would wrap; on failure both records
/// are unchanged.
///
/// Staking deliberately resets the accrual baseline without harvesting the
/// elapsed window first: reward for time already elapsed under the old
/// baseline is forfeited unless the caller harvests before re-staking.
pub fn stake(
    pool: &mut FarmPoolAccount,
    user: &mut FarmPoolUserAccount,
    amount: u64,
    now: u64,
) -> (r: Result<TransferInstruction, ErrorCode>)
    ensures
        match stake_spec(*old(pool), *old(user), amount, now) {
            Ok(t) => *final(pool) == t.0 && *final(user) == t.1 && r == Ok::<
                TransferInstruction,
                ErrorCode,
            >(t.2),
            Err(e) => *final(pool) == *old(pool) && *final(user) == *old(user) && r == Err::<
                TransferInstruction,
                ErrorCode,
            >(e),
        },
{
    if pool.activated == 0 {
        return Err(ErrorCode::PoolDeactivated);
    }
    if amount == 0 {
        return Err(ErrorCode::InvalidParams);
    }
    let new_user_amount = match user.amount.checked_add(amount) {
        Some(v) => v,
        None => { return Err(ErrorCode::MathOverflow) },
    };
    let new_total_staked = match pool.total_staked.checked_add(amount) {
        Some(v) => v,
        None => { return Err(ErrorCode::MathOverflow) },
    };
    user.amount = new_user_amount;
    user.last_event_time = now;
    pool.total_staked = new_total_staked;
    Ok(TransferInstruction { pool_id: pool.id, kind: TransferKind::StakeDeposit, amount })
}

/// Amount actually paid out by an unstake: penalized while the position is
/// still locked, the full requested amount once unlocked.
pub open spec fn payout_of(amount: int, penalty: int, locked: bool) -> int {
    if locked {
        amount * (100 - penalty) / 100
    } else {
        amount
    }
}

/// Outcome of `unstake`: the updated pool and position and the payout
/// transfer.
pub open spec fn unstake_spec(
    pool: FarmPoolAccount,
    user: FarmPoolUserAccount,
    amount: u64,
    now: u64,
) -> Result<(FarmPoolAccount, FarmPoolUserAccount, TransferInstruction), ErrorCode>
    recommends
        pool.penalty < 100,
{
    if amount == 0 {
        Err(ErrorCode::InvalidParams)
    } else if user.amount < amount {
        Err(ErrorCode::UnstakeOverAmount)
    } else if now < user.last_event_time {
        Err(ErrorCode::MathUnderflow)
    } else if user.last_event_time + pool.lock_time > u64::MAX {
        Err(ErrorCode::MathOverflow)
    } else {
        let locked = (now as int) < user.last_event_time + pool.lock_time;
        if locked && (amount as int) * (100 - pool.penalty) > u64::MAX {
            Err(ErrorCode::MathOverflow)
        } else {
            let payout = payout_of(amount as int, pool.penalty as int, locked);
            let elapsed = now - user.last_event_time;
            if payout * pool.apy * elapsed > u128::MAX {
                Err(ErrorCode::MathOverflow)
            } else {
                let reward = reward_of(payout, pool.apy as int, elapsed);
                if user.pending_reward + reward > u128::MAX {
                    Err(ErrorCode::MathOverflow)
                } else if pool.total_staked < payout {
                    Err(ErrorCode::MathUnderflow)
                } else {
                    Ok(
                        (
                            FarmPoolAccount {
                                total_staked: (pool.total_staked - payout) as u64,
                                ..pool
                            },
                            FarmPoolUserAccount {
                                amount: (user.amount - amount) as u64,
                                pending_reward: (user.pending_reward + reward) as u128,
                                last_event_time: now,
                                ..user
                            },
                            TransferInstruction {
                                pool_id: pool.id,
                                kind: TransferKind::UnstakePayout,
                                amount: payout as u64,
                            },
                        ),
                    )
                }
            }
        }
    }
}

/// Removes `amount` from the position, paying out the penalized portion while
/// the lock is still running, accrues the reward earned by the payout over
/// the elapsed window into `pending_reward`, re-baselines accrual to `now`,
/// and emits the payout instruction. Fails with `InvalidParams` on a zero
/// amount, with `UnstakeOverAmount` when the request exceeds the position's
/// balance, and with `MathOverflow`/`MathUnderflow` on checked-arithmetic
/// bounds.
///
/// The position's balance drops by the full requested `amount` while the
/// pool total drops only by the penalized payout: the forfeited difference
/// stays in the pool's stake vault with no ledger entry crediting it.
/// On any failure both records are unchanged.
pub fn unstake(
    pool: &mut FarmPoolAccount,
    user: &mut FarmPoolUserAccount,
    amount: u64,
    now: u64,
) -> (r: Result<TransferInstruction, ErrorCode>)
    requires
        old(pool).penalty < 100,
    ensures
        match unstake_spec(*old(pool), *old(user), amount, now) {
            Ok(t) => *final(pool) == t.0 && *final(user) == t.1 && r == Ok::<
                TransferInstruction,
                ErrorCode,
            >(t.2),
            Err(e) => *final(pool) == *old(pool) && *final(user) == *old(user) && r == Err::<
                TransferInstruction,
                ErrorCode,
            >(e),
        },
{
    if amount == 0 {
        return Err(ErrorCode::InvalidParams);
    }
    if user.amount < amount {
        return Err(ErrorCode::UnstakeOverAmount);
    }
    let elapsed = match now.checked_sub(user.last_event_time) {
        Some(v) => v,
        None => { return Err(ErrorCode::MathUnderflow) },
    };
    let lock_end = match user.last_event_time.checked_add(pool.lock_time) {
        Some(v) => v,
        None => { return Err(ErrorCode::MathOverflow) },
    };
    let locked = now < lock_end;
    let payout: u64 = if locked {
        let scaled = match amount.checked_mul(100 - pool.penalty) {
            Some(v) => v,
            None => { return Err(ErrorCode::MathOverflow) },
        };
        scaled / 100
    } else {
        amount
    };
    let reward = match accrued_reward(payout, pool.apy, elapsed) {
        Ok(v) => v,
        Err(e) => { return Err(e) },
    };
    let new_pending = match user.pending_reward.checked_add(reward) {
        Some(v) => v,
        None => { return Err(ErrorCode::MathOverflow) },
    };
    let new_total_staked = match pool.total_staked.checked_sub(payout) {
        Some(v) => v,
        None => { return Err(ErrorCode::MathUnderflow) },
    };
    user.amount = user.amount - amount;
    user.pending_reward = new_pending;
    user.last_event_time = now;
    pool.total_staked = new_total_staked;
    Ok(TransferInstruction { pool_id: pool.id, kind: TransferKind::UnstakePayout, amount: payout })
}

/// Outcome of `harvest`: the updated pool and position and the reward
/// payout transfer.
pub open spec fn harvest_spec(pool: FarmPoolAccount, user: FarmPoolUserAccount, now: u64)
    -> Result<(FarmPoolAccount, FarmPoolUserAccount, TransferInstruction), ErrorCode> {
    if now < user.last_event_time {
        Err(ErrorCode::MathUnderflow)
    } else {
        let elapsed = now - user.last_event_time;
        if user.amount * pool.amount_multiplier * pool.apy > u128::MAX {
            Err(ErrorCode::MathOverflow)
        } else if (user.amount * pool.amount_multiplier * pool.apy / 100) * elapsed > u128::MAX {
            Err(ErrorCode::MathOverflow)
        } else {
            let new_reward = harvest_reward_of(
                user.amount as int,
                pool.amount_multiplier as int,
                pool.apy as int,
                elapsed,
            );
            if user.pending_reward + new_reward > u128::MAX {
                Err(ErrorCode::MathOverflow)
            } else if user.pending_reward + new_reward > u64::MAX {
                Err(ErrorCode::MathPanic)
            } else {
                let total_payable = (user.pending_reward + new_reward) as u64;
                if pool.reward_liability < total_payable {
                    Err(ErrorCode::HarvestOverAmount)
                } else {
                    Ok(
                        (
                            FarmPoolAccount {
                                reward_liability: (pool.reward_liability - total_payable) as u64,
                                ..pool
                            },
                            FarmPoolUserAccount { pending_reward: 0, ..user },
                            TransferInstruction {
                                pool_id: pool.id,
                                kind: TransferKind::RewardPayout,
                                amount: total_payable,
                            },
                        ),
                    )
                }
            }
        }
    }
}

/// Pays out the position's pending reward plus the reward newly accrued
/// since the last stake or unstake, reduces the pool's liability by the
/// same total, and resets `pending_reward` to zero. Fails with
/// `HarvestOverAmount` exactly when the recorded liability cannot cover the
/// payout, with `MathPanic` when the wide total does not fit in 64 bits,
/// and with `MathOverflow`/`MathUnderflow` on checked-arithmetic bounds.
///
/// Harvest does not move `last_event_time`: only stake and unstake do.
/// On any failure both records are unchanged.
pub fn harvest(pool: &mut FarmPoolAccount, user: &mut FarmPoolUserAccount, now: u64) -> (r: Result<
    TransferInstruction,
    ErrorCode,
>)
    ensures
        match harvest_spec(*old(pool), *old(user), now) {
            Ok(t) => *final(pool) == t.0 && *final(user) == t.1 && r == Ok::<
                TransferInstruction,
                ErrorCode,
            >(t.2),
            Err(e) => *final(pool) == *old(pool) && *final(user) == *old(user) && r == Err::<
                TransferInstruction,
                ErrorCode,
            >(e),
        },
{
    let elapsed = match now.checked_sub(user.last_event_time) {
        Some(v) => v,
        None => { return Err(ErrorCode::MathUnderflow) },
    };
    proof {
        lemma_mul_upper_bound(
            user.amount as int,
            u64::MAX as int,
            pool.amount_multiplier as int,
            u64::MAX as int,
        );
    }
    let scaled = match (user.amount as u128).checked_mul(pool.amount_multiplier as u128) {
        Some(v) => v,
        None => { return Err(ErrorCode::MathOverflow) },
    };
    let rated = match scaled.checked_mul(pool.apy as u128) {
        Some(v) => v,
        None => { return Err(ErrorCode::MathOverflow) },
    };
    let per_year = rated / 100;
    let over_window = match per_year.checked_mul(elapsed as u128) {
        Some(v) => v,
        None => { return Err(ErrorCode::MathOverflow) },
    };
    let new_reward = over_window / (SECONDS_PER_YEAR as u128);
    let total_wide = match user.pending_reward.checked_add(new_reward) {
        Some(v) => v,
        None => { return Err(ErrorCode::MathOverflow) },
    };
    if total_wide > u64::MAX as u128 {
        return Err(ErrorCode::MathPanic);
    }
    let total_payable = total_wide as u64;
    if pool.reward_liability < total_payable {
        return Err(ErrorCode::HarvestOverAmount);
    }
    pool.reward_liability = pool.reward_liability - total_payable;
    user.pending_reward = 0;
    Ok(TransferInstruction { pool_id: pool.id, kind: TransferKind::RewardPayout, amount: total_payable })
}

/// The transfer an administrative withdraw emits: `amount` of the reward
/// asset out of the pool's reward vault, signed by the pool's capability.
pub open spec fn withdraw_spec(pool: FarmPoolAccount, amount: u64) -> TransferInstruction {
    TransferInstruction { pool_id: pool.id, kind: TransferKind::AdminWithdrawal, amount }
}

/// Emits the instruction moving `amount` of the reward asset from the pool's
/// reward vault to a destination chosen by the authority. The pool record —
/// its reward liability included — is not touched: the liability accounting
/// may thereafter overstate the vault's true backing.
pub fn withdraw(pool: &FarmPoolAccount, amount: u64) -> (r: TransferInstruction)
    ensures
        r == withdraw_spec(*pool, amount),
{
    TransferInstruction { pool_id: pool.id, kind: TransferKind::AdminWithdrawal, amount }
}

} // verus!
