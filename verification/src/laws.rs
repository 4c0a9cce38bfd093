//! Ledger-wide laws.
//!
//! The operations act on one pool and one position at a time; these proof
//! functions lift their contracts to the pool-wide accounting invariant —
//! `total_staked` equals the sum of the position amounts — and to the laws
//! relating consecutive operations.

use vstd::arithmetic::div_mod::lemma_div_is_ordered;
use vstd::arithmetic::div_mod::lemma_div_multiples_vanish;
use vstd::arithmetic::mul::lemma_mul_inequality;
use vstd::prelude::*;

use crate::accounts::FarmPoolAccount;
use crate::accounts::FarmPoolUserAccount;
use crate::accounts::StateAccount;
use crate::ops::create_pool_spec;
use crate::ops::create_user_spec;
use crate::ops::fund_spec;
use crate::ops::harvest_spec;
use crate::ops::stake_spec;
use crate::ops::unstake_spec;
use crate::ops::update_pool_spec;
use crate::ops::withdraw_spec;
use crate::reward::lemma_harvest_reward_zero_elapsed;
use crate::reward::lemma_reward_zero_elapsed;

verus! {

/// Sum of the currently staked amounts over a pool's positions.
pub open spec fn total_position_amount(ps: Seq<FarmPoolUserAccount>) -> int
    decreases ps.len(),
{
    if ps.len() == 0 {
        0
    } else {
        ps[0].amount + total_position_amount(ps.drop_first())
    }
}

/// Replacing one position changes the sum by the difference of the amounts.
pub proof fn lemma_total_update(ps: Seq<FarmPoolUserAccount>, i: int, q: FarmPoolUserAccount)
    requires
        0 <= i < ps.len(),
    ensures
        total_position_amount(ps.update(i, q)) == total_position_amount(ps) - ps[i].amount
            + q.amount,
    decreases ps.len(),
{
    if i == 0 {
        assert(ps.update(0, q).drop_first() =~= ps.drop_first());
    } else {
        assert(ps.update(i, q).drop_first() =~= ps.drop_first().update(i - 1, q));
        lemma_total_update(ps.drop_first(), i - 1, q);
    }
}

/// Appending a position adds its amount to the sum.
pub proof fn lemma_total_push(ps: Seq<FarmPoolUserAccount>, q: FarmPoolUserAccount)
    ensures
        total_position_amount(ps.push(q)) == total_position_amount(ps) + q.amount,
    decreases ps.len(),
{
    assert(ps.push(q)[0] == if ps.len() == 0 { q } else { ps[0] });
    if ps.len() == 0 {
        assert(ps.push(q).drop_first() =~= Seq::<FarmPoolUserAccount>::empty());
        assert(total_position_amount(Seq::<FarmPoolUserAccount>::empty()) == 0);
    } else {
        assert(ps.push(q).drop_first() =~= ps.drop_first().push(q));
        lemma_total_push(ps.drop_first(), q);
    }
}

/// Law: a successful stake into position `i` preserves the accounting
/// invariant — the new pool total equals the sum of the updated positions.
pub proof fn lemma_stake_preserves_pool_total(
    ps: Seq<FarmPoolUserAccount>,
    i: int,
    pool: FarmPoolAccount,
    amount: u64,
    now: u64,
)
    requires
        0 <= i < ps.len(),
        pool.total_staked == total_position_amount(ps),
        stake_spec(pool, ps[i], amount, now) is Ok,
    ensures
        ({
            let t = stake_spec(pool, ps[i], amount, now)->Ok_0;
            t.0.total_staked == total_position_amount(ps.update(i, t.1))
        }),
{
    let t = stake_spec(pool, ps[i], amount, now)->Ok_0;
    lemma_total_update(ps, i, t.1);
}

/// Law: a successful unstake decreases the summed position amounts by the
/// full requested amount but the pool total only by the penalized payout;
/// the forfeited difference is not credited anywhere, so the pool total
/// exceeds the sum by exactly that difference.
pub proof fn lemma_unstake_pool_total_asymmetry(
    ps: Seq<FarmPoolUserAccount>,
    i: int,
    pool: FarmPoolAccount,
    amount: u64,
    now: u64,
)
    requires
        0 <= i < ps.len(),
        pool.penalty < 100,
        pool.total_staked == total_position_amount(ps),
        unstake_spec(pool, ps[i], amount, now) is Ok,
    ensures
        ({
            let t = unstake_spec(pool, ps[i], amount, now)->Ok_0;
            &&& t.2.amount <= amount
            &&& t.0.total_staked == total_position_amount(ps.update(i, t.1)) + (amount
                - t.2.amount)
        }),
{
    let t = unstake_spec(pool, ps[i], amount, now)->Ok_0;
    let locked = (now as int) < ps[i].last_event_time + pool.lock_time;
    if locked {
        lemma_mul_inequality(100 - pool.penalty as int, 100, amount as int);
        lemma_div_is_ordered(
            (amount as int) * (100 - pool.penalty),
            (amount as int) * 100,
            100,
        );
        lemma_div_multiples_vanish(amount as int, 100);
    }
    lemma_total_update(ps, i, t.1);
}

/// Law: a successful harvest moves no staked balance — the pool total and
/// the summed position amounts are both unchanged, so the accounting
/// invariant is preserved.
pub proof fn lemma_harvest_preserves_pool_total(
    ps: Seq<FarmPoolUserAccount>,
    i: int,
    pool: FarmPoolAccount,
    now: u64,
)
    requires
        0 <= i < ps.len(),
        pool.total_staked == total_position_amount(ps),
        harvest_spec(pool, ps[i], now) is Ok,
    ensures
        ({
            let t = harvest_spec(pool, ps[i], now)->Ok_0;
            t.0.total_staked == total_position_amount(ps.update(i, t.1))
        }),
{
    let t = harvest_spec(pool, ps[i], now)->Ok_0;
    lemma_total_update(ps, i, t.1);
}

/// Law: creating a position preserves the accounting invariant — the fresh
/// position holds nothing, so the sum is unchanged.
pub proof fn lemma_create_user_preserves_pool_total(
    ps: Seq<FarmPoolUserAccount>,
    pool: FarmPoolAccount,
    owner: u64,
)
    requires
        pool.total_staked == total_position_amount(ps),
        create_user_spec(pool, owner) is Ok,
    ensures
        ({
            let t = create_user_spec(pool, owner)->Ok_0;
            t.0.total_staked == total_position_amount(ps.push(t.1))
        }),
{
    let t = create_user_spec(pool, owner)->Ok_0;
    lemma_total_push(ps, t.1);
}

/// Law: pool ids under one registry never repeat. Ids are handed out from
/// the registry's counter, which every creation advances past the new id, so
/// a pool created once the counter has passed an existing pool's id always
/// gets a strictly greater one.
pub proof fn lemma_pool_ids_never_repeat(
    s: StateAccount,
    asset: u64,
    point: u64,
    amount_multiplier: u64,
    apy: u64,
    lock_time: u64,
    penalty: u64,
    existing_id: u8,
)
    requires
        existing_id < s.next_pool_id,
        create_pool_spec(s, asset, point, amount_multiplier, apy, lock_time, penalty) is Ok,
    ensures
        ({
            let t = create_pool_spec(s, asset, point, amount_multiplier, apy, lock_time, penalty)->Ok_0;
            &&& t.1.id > existing_id
            &&& t.0.next_pool_id > t.1.id
        }),
{
}

/// Law: a fresh pool starts with no positions and a zero total, so the
/// accounting invariant holds from the moment a pool exists.
pub proof fn lemma_new_pool_total_matches_no_positions(pool: FarmPoolAccount)
    requires
        pool.total_staked == 0,
    ensures
        pool.total_staked == total_position_amount(Seq::<FarmPoolUserAccount>::empty()),
{
}

/// Law: funding touches only the reward liability, so the accounting
/// invariant over staked amounts is preserved.
pub proof fn lemma_fund_preserves_pool_total(
    ps: Seq<FarmPoolUserAccount>,
    pool: FarmPoolAccount,
    amount: u64,
)
    requires
        pool.total_staked == total_position_amount(ps),
        fund_spec(pool, amount) is Ok,
    ensures
        fund_spec(pool, amount)->Ok_0.0.total_staked == total_position_amount(ps),
{
}

/// Law: updating the activation flag or penalty moves no staked balance, so
/// the accounting invariant is preserved.
pub proof fn lemma_update_pool_preserves_pool_total(
    ps: Seq<FarmPoolUserAccount>,
    pool: FarmPoolAccount,
    flag: u8,
    penalty: u64,
)
    requires
        pool.total_staked == total_position_amount(ps),
        update_pool_spec(pool, flag, penalty) is Ok,
    ensures
        update_pool_spec(pool, flag, penalty)->Ok_0.total_staked == total_position_amount(ps),
{
}

/// Law: a harvest immediately after a successful unstake — same timestamp,
/// so zero elapsed time — computes no new reward: whenever it succeeds it
/// pays out exactly the pending reward the unstake left, and it does succeed
/// whenever that pending reward fits in 64 bits, its staged product fits in
/// 128 bits, and the pool's liability covers it.
pub proof fn lemma_unstake_then_harvest_adds_nothing(
    pool: FarmPoolAccount,
    user: FarmPoolUserAccount,
    amount: u64,
    now: u64,
)
    requires
        pool.penalty < 100,
        unstake_spec(pool, user, amount, now) is Ok,
    ensures
        ({
            let t = unstake_spec(pool, user, amount, now)->Ok_0;
            &&& (harvest_spec(t.0, t.1, now) matches Ok(h) ==> h.2.amount == t.1.pending_reward
                && h.1.pending_reward == 0)
            &&& (t.1.amount * pool.amount_multiplier * pool.apy <= u128::MAX
                && t.1.pending_reward <= u64::MAX && t.0.reward_liability >= t.1.pending_reward)
                ==> harvest_spec(t.0, t.1, now) is Ok
        }),
{
    let t = unstake_spec(pool, user, amount, now)->Ok_0;
    lemma_harvest_reward_zero_elapsed(
        t.1.amount as int,
        pool.amount_multiplier as int,
        pool.apy as int,
    );
}

/// Law: funding a pool and then immediately admin-withdrawing the same
/// amount leaves the recorded reward liability raised by the funded amount:
/// the withdraw emits a transfer instruction of that amount but, by design,
/// never adjusts the liability, which may thereafter overstate the vault's
/// true backing.
pub proof fn lemma_fund_then_withdraw_keeps_liability(pool: FarmPoolAccount, amount: u64)
    requires
        fund_spec(pool, amount) is Ok,
    ensures
        ({
            let t = fund_spec(pool, amount)->Ok_0;
            &&& t.0.reward_liability == pool.reward_liability + amount
            &&& withdraw_spec(t.0, amount).amount == amount
        }),
{
}

/// Law: an unstake over zero elapsed time accrues exactly
/// `reward_of(payout, apy, 0) == 0` pending reward.
pub proof fn lemma_unstake_zero_elapsed_accrues_nothing(
    pool: FarmPoolAccount,
    user: FarmPoolUserAccount,
    amount: u64,
)
    requires
        pool.penalty < 100,
        unstake_spec(pool, user, amount, user.last_event_time) is Ok,
    ensures
        ({
            let t = unstake_spec(pool, user, amount, user.last_event_time)->Ok_0;
            t.1.pending_reward == user.pending_reward
        }),
{
    let locked = (user.last_event_time as int) < user.last_event_time + pool.lock_time;
    let payout = crate::ops::payout_of(amount as int, pool.penalty as int, locked);
    lemma_reward_zero_elapsed(payout, pool.apy as int);
}

} // verus!
