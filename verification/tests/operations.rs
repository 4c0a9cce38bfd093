use solana_token_staking::accounts::FarmPoolAccount;
use solana_token_staking::accounts::FarmPoolUserAccount;
use solana_token_staking::accounts::TransferKind;
use solana_token_staking::errors::ErrorCode;
use solana_token_staking::ops::create_pool;
use solana_token_staking::ops::create_state;
use solana_token_staking::ops::create_user;
use solana_token_staking::ops::fund_reward_token;
use solana_token_staking::ops::harvest;
use solana_token_staking::ops::stake;
use solana_token_staking::ops::unstake;
use solana_token_staking::ops::update_pool;
use solana_token_staking::ops::withdraw;

const AUTHORITY: u64 = 11;
const REWARD_ASSET: u64 = 22;
const STAKE_ASSET: u64 = 33;
const OWNER: u64 = 44;

fn sample_pool() -> FarmPoolAccount {
    FarmPoolAccount {
        authority: AUTHORITY,
        asset: STAKE_ASSET,
        id: 0,
        point: 1,
        amount_multiplier: 1,
        apy: 10,
        lock_time: 86400,
        penalty: 50,
        activated: 1,
        total_staked: 0,
        reward_liability: 0,
        total_users: 0,
    }
}

fn sample_user() -> FarmPoolUserAccount {
    FarmPoolUserAccount {
        pool_ref: 0,
        owner: OWNER,
        amount: 0,
        pending_reward: 0,
        last_event_time: 0,
    }
}

#[test]
fn create_state_rejects_zero_rate() {
    assert_eq!(
        create_state(AUTHORITY, REWARD_ASSET, 0),
        Err(ErrorCode::InvalidParams)
    );
}

#[test]
fn create_state_initializes_registry() {
    let s = create_state(AUTHORITY, REWARD_ASSET, 7).unwrap();
    assert_eq!(s.authority, AUTHORITY);
    assert_eq!(s.reward_asset, REWARD_ASSET);
    assert_eq!(s.reward_rate_base, 7);
    assert_eq!(s.total_point, 0);
    assert_eq!(s.next_pool_id, 0);
}

#[test]
fn create_pool_allocates_id_and_weight() {
    let mut s = create_state(AUTHORITY, REWARD_ASSET, 7).unwrap();
    let p = create_pool(&mut s, STAKE_ASSET, 5, 2, 10, 86400, 50).unwrap();
    assert_eq!(p.id, 0);
    assert_eq!(p.authority, AUTHORITY);
    assert_eq!(p.asset, STAKE_ASSET);
    assert_eq!(p.activated, 1);
    assert_eq!(p.total_staked, 0);
    assert_eq!(p.reward_liability, 0);
    assert_eq!(p.total_users, 0);
    assert_eq!(s.total_point, 5);
    assert_eq!(s.next_pool_id, 1);
    let q = create_pool(&mut s, STAKE_ASSET + 1, 3, 1, 20, 100, 0).unwrap();
    assert_eq!(q.id, 1);
    assert_eq!(s.total_point, 8);
    assert_eq!(s.next_pool_id, 2);
}

#[test]
fn create_pool_rejects_bad_params() {
    let fresh = create_state(AUTHORITY, REWARD_ASSET, 7).unwrap();
    let mut s = fresh;
    assert_eq!(
        create_pool(&mut s, STAKE_ASSET, 0, 1, 10, 86400, 50),
        Err(ErrorCode::InvalidParams)
    );
    assert_eq!(
        create_pool(&mut s, STAKE_ASSET, 1, 0, 10, 86400, 50),
        Err(ErrorCode::InvalidParams)
    );
    assert_eq!(
        create_pool(&mut s, STAKE_ASSET, 1, 1, 0, 86400, 50),
        Err(ErrorCode::InvalidParams)
    );
    assert_eq!(
        create_pool(&mut s, STAKE_ASSET, 1, 1, 10, 0, 50),
        Err(ErrorCode::InvalidParams)
    );
    assert_eq!(
        create_pool(&mut s, STAKE_ASSET, 1, 1, 10, 86400, 100),
        Err(ErrorCode::InvalidParams)
    );
    assert_eq!(s, fresh);
}

#[test]
fn create_pool_total_point_overflow() {
    let mut s = create_state(AUTHORITY, REWARD_ASSET, 7).unwrap();
    s.total_point = u64::MAX;
    let before = s;
    assert_eq!(
        create_pool(&mut s, STAKE_ASSET, 1, 1, 10, 86400, 50),
        Err(ErrorCode::MathOverflow)
    );
    assert_eq!(s, before);
}

#[test]
fn create_pool_id_exhaustion_overflows() {
    let mut s = create_state(AUTHORITY, REWARD_ASSET, 7).unwrap();
    s.next_pool_id = u8::MAX;
    let before = s;
    assert_eq!(
        create_pool(&mut s, STAKE_ASSET, 1, 1, 10, 86400, 50),
        Err(ErrorCode::MathOverflow)
    );
    assert_eq!(s, before);
}

#[test]
fn update_pool_sets_flag_and_penalty() {
    let mut p = sample_pool();
    assert_eq!(update_pool(&mut p, 0, 30), Ok(()));
    assert_eq!(p.activated, 0);
    assert_eq!(p.penalty, 30);
}

#[test]
fn update_pool_rejects_full_penalty() {
    let mut p = sample_pool();
    let before = p;
    assert_eq!(update_pool(&mut p, 0, 100), Err(ErrorCode::InvalidParams));
    assert_eq!(p, before);
}

#[test]
fn fund_rejects_zero_amount() {
    let mut p = sample_pool();
    let before = p;
    assert_eq!(fund_reward_token(&mut p, 0), Err(ErrorCode::InvalidParams));
    assert_eq!(p, before);
}

#[test]
fn fund_raises_liability_and_emits_transfer() {
    let mut p = sample_pool();
    let ti = fund_reward_token(&mut p, 500).unwrap();
    assert_eq!(p.reward_liability, 500);
    assert_eq!(ti.kind, TransferKind::RewardFunding);
    assert_eq!(ti.amount, 500);
    assert_eq!(ti.pool_id, p.id);
}

#[test]
fn fund_liability_overflow() {
    let mut p = sample_pool();
    p.reward_liability = u64::MAX;
    let before = p;
    assert_eq!(fund_reward_token(&mut p, 1), Err(ErrorCode::MathOverflow));
    assert_eq!(p, before);
}

#[test]
fn create_user_counts_positions() {
    let mut p = sample_pool();
    let u = create_user(&mut p, OWNER).unwrap();
    assert_eq!(p.total_users, 1);
    assert_eq!(u.owner, OWNER);
    assert_eq!(u.pool_ref, p.id);
    assert_eq!(u.amount, 0);
    assert_eq!(u.pending_reward, 0);
}

#[test]
fn create_user_count_overflow() {
    let mut p = sample_pool();
    p.total_users = u64::MAX;
    let before = p;
    assert_eq!(create_user(&mut p, OWNER), Err(ErrorCode::MathOverflow));
    assert_eq!(p, before);
}

#[test]
fn stake_rejects_deactivated_pool() {
    let mut p = sample_pool();
    p.activated = 0;
    let mut u = sample_user();
    let before_p = p;
    let before_u = u;
    assert_eq!(
        stake(&mut p, &mut u, 100, 10),
        Err(ErrorCode::PoolDeactivated)
    );
    assert_eq!(p, before_p);
    assert_eq!(u, before_u);
}

#[test]
fn stake_rejects_zero_amount() {
    let mut p = sample_pool();
    let mut u = sample_user();
    assert_eq!(stake(&mut p, &mut u, 0, 10), Err(ErrorCode::InvalidParams));
    // On an inactive pool the deactivation is reported first.
    p.activated = 0;
    assert_eq!(stake(&mut p, &mut u, 0, 10), Err(ErrorCode::PoolDeactivated));
}

#[test]
fn stake_moves_balances_and_rebases_time() {
    let mut p = sample_pool();
    let mut u = sample_user();
    let ti = stake(&mut p, &mut u, 1000, 77).unwrap();
    assert_eq!(u.amount, 1000);
    assert_eq!(u.last_event_time, 77);
    assert_eq!(p.total_staked, 1000);
    assert_eq!(ti.kind, TransferKind::StakeDeposit);
    assert_eq!(ti.amount, 1000);
}

#[test]
fn stake_user_amount_overflow() {
    let mut p = sample_pool();
    let mut u = sample_user();
    u.amount = u64::MAX;
    let before_u = u;
    assert_eq!(stake(&mut p, &mut u, 1, 10), Err(ErrorCode::MathOverflow));
    assert_eq!(u, before_u);
    assert_eq!(p, sample_pool());
}

#[test]
fn stake_pool_total_overflow() {
    let mut p = sample_pool();
    p.total_staked = u64::MAX;
    let mut u = sample_user();
    let before_p = p;
    assert_eq!(stake(&mut p, &mut u, 1, 10), Err(ErrorCode::MathOverflow));
    assert_eq!(p, before_p);
    assert_eq!(u, sample_user());
}

#[test]
fn unstake_rejects_over_amount_and_zero() {
    let mut p = sample_pool();
    let mut u = sample_user();
    u.amount = 50;
    assert_eq!(
        unstake(&mut p, &mut u, 51, 10),
        Err(ErrorCode::UnstakeOverAmount)
    );
    assert_eq!(
        unstake(&mut p, &mut u, 0, 10),
        Err(ErrorCode::InvalidParams)
    );
    assert_eq!(u.amount, 50);
}

#[test]
fn unstake_penalized_while_locked() {
    // Pool with apy 10, lock 86400, penalty 50: stake 1000, unstake the full
    // 1000 after 1000 seconds (still locked). Payout is halved to 500 and the
    // accrued reward floor(500*10*1000/(100*31536000)) is exactly 0.
    let mut s = create_state(AUTHORITY, REWARD_ASSET, 7).unwrap();
    let mut p = create_pool(&mut s, STAKE_ASSET, 1, 1, 10, 86400, 50).unwrap();
    let mut u = create_user(&mut p, OWNER).unwrap();
    stake(&mut p, &mut u, 1000, 0).unwrap();
    let ti = unstake(&mut p, &mut u, 1000, 1000).unwrap();
    assert_eq!(ti.amount, 500);
    assert_eq!(ti.kind, TransferKind::UnstakePayout);
    assert_eq!(u.amount, 0);
    assert_eq!(u.pending_reward, 0);
    assert_eq!(u.last_event_time, 1000);
    // The forfeited 500 stays in the pool total: asymmetric by design.
    assert_eq!(p.total_staked, 500);
}

#[test]
fn unstake_unlocked_pays_in_full_and_accrues() {
    let mut p = sample_pool();
    let mut u = sample_user();
    stake(&mut p, &mut u, 1_000_000, 0).unwrap();
    // One year later the lock has long expired: full payout, 10% reward.
    let ti = unstake(&mut p, &mut u, 1_000_000, 31_536_000).unwrap();
    assert_eq!(ti.amount, 1_000_000);
    assert_eq!(u.amount, 0);
    assert_eq!(u.pending_reward, 100_000);
    assert_eq!(p.total_staked, 0);
}

#[test]
fn unstake_partial_keeps_invariant_per_position() {
    let mut p = sample_pool();
    let mut u1 = sample_user();
    let mut u2 = sample_user();
    stake(&mut p, &mut u1, 600, 0).unwrap();
    stake(&mut p, &mut u2, 400, 0).unwrap();
    assert_eq!(p.total_staked, (u1.amount + u2.amount));
    // Locked unstake of 100 from u1: payout 50, forfeits 50 to the pool total.
    let ti = unstake(&mut p, &mut u1, 100, 10).unwrap();
    assert_eq!(ti.amount, 50);
    assert_eq!(u1.amount, 500);
    assert_eq!(p.total_staked, u1.amount + u2.amount + 50);
}

#[test]
fn unstake_clock_underflow() {
    let mut p = sample_pool();
    let mut u = sample_user();
    u.amount = 100;
    u.last_event_time = 1000;
    assert_eq!(
        unstake(&mut p, &mut u, 100, 999),
        Err(ErrorCode::MathUnderflow)
    );
    assert_eq!(u.amount, 100);
}

#[test]
fn unstake_lock_deadline_overflow() {
    let mut p = sample_pool();
    p.lock_time = 2;
    let mut u = sample_user();
    u.amount = 100;
    u.last_event_time = u64::MAX - 1;
    assert_eq!(
        unstake(&mut p, &mut u, 100, u64::MAX),
        Err(ErrorCode::MathOverflow)
    );
}

#[test]
fn unstake_penalty_multiply_overflow() {
    let mut p = sample_pool();
    let mut u = sample_user();
    u.amount = u64::MAX;
    // Still locked, so the payout multiply MAX * (100 - 50) wraps.
    assert_eq!(
        unstake(&mut p, &mut u, u64::MAX, 10),
        Err(ErrorCode::MathOverflow)
    );
    assert_eq!(u.amount, u64::MAX);
}

#[test]
fn unstake_reward_multiply_overflow() {
    let mut p = sample_pool();
    p.apy = u64::MAX;
    p.lock_time = 1;
    let mut u = sample_user();
    u.amount = u64::MAX;
    p.total_staked = u64::MAX;
    // Unlocked full payout: MAX * MAX fits in 128 bits, * MAX elapsed does not.
    assert_eq!(
        unstake(&mut p, &mut u, u64::MAX, u64::MAX),
        Err(ErrorCode::MathOverflow)
    );
}

#[test]
fn unstake_pool_total_underflow() {
    let mut p = sample_pool();
    p.lock_time = 1;
    p.total_staked = 100;
    let mut u = sample_user();
    u.amount = 1000;
    assert_eq!(
        unstake(&mut p, &mut u, 1000, 10),
        Err(ErrorCode::MathUnderflow)
    );
    assert_eq!(p.total_staked, 100);
}

#[test]
fn harvest_after_unstake_zero_elapsed_adds_nothing() {
    let mut p = sample_pool();
    fund_reward_token(&mut p, 1_000_000).unwrap();
    let mut u = sample_user();
    stake(&mut p, &mut u, 1_000_000, 0).unwrap();
    unstake(&mut p, &mut u, 1_000_000, 31_536_000).unwrap();
    assert_eq!(u.pending_reward, 100_000);
    // Harvest at the very same timestamp: zero elapsed, no new reward.
    let ti = harvest(&mut p, &mut u, 31_536_000).unwrap();
    assert_eq!(ti.amount, 100_000);
    assert_eq!(ti.kind, TransferKind::RewardPayout);
    assert_eq!(u.pending_reward, 0);
    assert_eq!(p.reward_liability, 900_000);
}

#[test]
fn harvest_uses_staged_division() {
    // amount * multiplier * apy = 199, so the staged form floors 199/100 to 1
    // before the elapsed factor: reward over two years is 1 * 2 = 2, not
    // floor(199 * 2 / 100) = 3.
    let mut p = sample_pool();
    p.amount_multiplier = 1;
    p.apy = 199;
    p.reward_liability = 10;
    let mut u = sample_user();
    u.amount = 1;
    u.last_event_time = 0;
    let ti = harvest(&mut p, &mut u, 2 * 31_536_000).unwrap();
    assert_eq!(ti.amount, 2);
    assert_eq!(p.reward_liability, 8);
}

#[test]
fn harvest_fails_when_liability_short() {
    let mut p = sample_pool();
    p.reward_liability = 49;
    let mut u = sample_user();
    u.pending_reward = 50;
    assert_eq!(
        harvest(&mut p, &mut u, 0),
        Err(ErrorCode::HarvestOverAmount)
    );
    // The failed harvest must leave the pending reward untouched.
    assert_eq!(u.pending_reward, 50);
    assert_eq!(p.reward_liability, 49);
}

#[test]
fn harvest_clock_underflow() {
    let mut p = sample_pool();
    let mut u = sample_user();
    u.last_event_time = 10;
    assert_eq!(harvest(&mut p, &mut u, 9), Err(ErrorCode::MathUnderflow));
}

#[test]
fn harvest_panics_on_wide_total() {
    let mut p = sample_pool();
    p.reward_liability = u64::MAX;
    let mut u = sample_user();
    u.pending_reward = (u64::MAX as u128) + 1;
    assert_eq!(harvest(&mut p, &mut u, 0), Err(ErrorCode::MathPanic));
    assert_eq!(u.pending_reward, (u64::MAX as u128) + 1);
}

#[test]
fn harvest_multiply_overflow() {
    let mut p = sample_pool();
    p.amount_multiplier = u64::MAX;
    p.apy = 2;
    let mut u = sample_user();
    u.amount = u64::MAX;
    assert_eq!(harvest(&mut p, &mut u, 0), Err(ErrorCode::MathOverflow));
}

#[test]
fn harvest_pending_accumulator_overflow() {
    let mut p = sample_pool();
    p.amount_multiplier = 1;
    p.apy = 100;
    let mut u = sample_user();
    u.amount = u64::MAX;
    u.pending_reward = u128::MAX;
    // A year at 100% earns the full staked MAX; adding it to an already
    // full accumulator wraps.
    assert_eq!(
        harvest(&mut p, &mut u, 31_536_000),
        Err(ErrorCode::MathOverflow)
    );
}

#[test]
fn restaking_rebases_accrual_without_harvesting() {
    let mut p = sample_pool();
    fund_reward_token(&mut p, 1_000_000).unwrap();
    let mut u = sample_user();
    stake(&mut p, &mut u, 1_000_000, 0).unwrap();
    // A second stake one year later moves the baseline without harvesting:
    // the first year's accrual is forfeited.
    stake(&mut p, &mut u, 1, 31_536_000).unwrap();
    assert_eq!(u.last_event_time, 31_536_000);
    assert_eq!(u.pending_reward, 0);
    // Harvest one year after the new baseline: 10% of 1_000_001 for one
    // year, floor(1_000_001 * 1 * 10 / 100) = 100_000 — and nothing more.
    let ti = harvest(&mut p, &mut u, 63_072_000).unwrap();
    assert_eq!(ti.amount, 100_000);
}

#[test]
fn harvest_twice_rederives_same_window() {
    // Harvest does not move the accrual baseline, so a second harvest over
    // the same window re-derives the same reward: preserved exactly.
    let mut p = sample_pool();
    fund_reward_token(&mut p, 1_000_000).unwrap();
    let mut u = sample_user();
    stake(&mut p, &mut u, 1_000_000, 0).unwrap();
    let first = harvest(&mut p, &mut u, 31_536_000).unwrap();
    assert_eq!(first.amount, 100_000);
    let second = harvest(&mut p, &mut u, 31_536_000).unwrap();
    assert_eq!(second.amount, 100_000);
    assert_eq!(p.reward_liability, 800_000);
}

#[test]
fn fund_then_withdraw_keeps_liability() {
    let mut p = sample_pool();
    fund_reward_token(&mut p, 500).unwrap();
    assert_eq!(p.reward_liability, 500);
    let ti = withdraw(&p, 500);
    assert_eq!(ti.kind, TransferKind::AdminWithdrawal);
    assert_eq!(ti.amount, 500);
    assert_eq!(ti.pool_id, p.id);
    // The withdraw moved vault funds but, by design, not the liability.
    assert_eq!(p.reward_liability, 500);
}
