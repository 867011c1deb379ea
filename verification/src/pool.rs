use vstd::arithmetic::div_mod::{
    lemma_div_is_ordered,
    lemma_div_of0,
    lemma_div_pos_is_pos,
};
use vstd::arithmetic::mul::{lemma_mul_inequality, lemma_mul_upper_bound};
use vstd::prelude::*;

use crate::config::Identity;
use crate::errors::ErrorCode;

verus! {

/// Fixed-point scale of the reward-per-token accumulator: reward amounts
/// are tracked per staked unit with nine fractional decimal digits.
pub const PRECISION: u64 = 1_000_000_000;

/// One year in seconds: the longest allowed reward epoch.
pub const MAX_DURATION_SECONDS: u64 = 31_536_000;

/// One staking pool: a stake asset, a reward asset, the distributor who
/// funds epochs, and the time-weighted reward accumulator.
#[derive(Clone, Copy, Debug, PartialEq, Eq, Structural)]
pub struct Pool {
    pub id: Identity,
    /// The only identity allowed to fund epochs and change pool settings.
    pub distributor: Identity,
    /// The staked asset.
    pub mint: Identity,
    /// The asset rewards are paid in.
    pub reward_mint: Identity,
    /// Length of a reward epoch, in seconds.
    pub duration: u64,
    /// When the current epoch stops accruing.
    pub period_finish: u64,
    /// Reward units distributed per second while an epoch runs.
    pub reward_rate: u64,
    /// Last time the accumulator was brought up to date.
    pub last_updated: u64,
    /// Cumulative reward per staked unit, scaled by `PRECISION`. Never
    /// decreases.
    pub reward_per_token_stored: u64,
    /// Sum of all participants' staked balances.
    pub total_supply: u64,
}

/// One participant's position in a pool.
#[derive(Clone, Copy, Debug, PartialEq, Eq, Structural)]
pub struct User {
    pub owner: Identity,
    /// The pool this position belongs to.
    pub pool: Identity,
    /// Staked amount.
    pub balance: u64,
    /// Rewards accrued but not yet claimed.
    pub pending_payout: u64,
    /// The accumulator value this position was last settled against.
    pub reward_per_token_paid: u64,
}

impl Pool {
    /// Pool validity: the epoch length is positive and at most a year, and
    /// the accumulator was never updated past the epoch's end.
    pub open spec fn wf(self) -> bool {
        0 < self.duration <= MAX_DURATION_SECONDS && self.last_updated <= self.period_finish
    }
}

/// Position validity relative to its pool: the position belongs to the pool,
/// was settled against an accumulator value the pool has reached, and stakes
/// no more than the pool's total.
pub open spec fn user_matches_pool(pool: Pool, user: User) -> bool {
    user.pool == pool.id && user.reward_per_token_paid <= pool.reward_per_token_stored
        && user.balance <= pool.total_supply
}

/// The time up to which rewards accrue: now, capped at the epoch's end.
pub open spec fn spec_last_time_reward_applicable(pool: Pool, now: u64) -> u64 {
    if now <= pool.period_finish {
        now
    } else {
        pool.period_finish
    }
}

/// How much the accumulator grows when synced at `now`: elapsed time times
/// the rate, scaled by `PRECISION` and divided by the staked total. An empty
/// pool accrues nothing.
pub open spec fn spec_reward_delta(pool: Pool, now: u64) -> int {
    if pool.total_supply == 0 {
        0
    } else {
        (spec_last_time_reward_applicable(pool, now) - pool.last_updated) * (
        pool.reward_rate as int) * (PRECISION as int) / (pool.total_supply as int)
    }
}

/// The accumulator value a sync at `now` produces.
pub open spec fn spec_reward_per_token(pool: Pool, now: u64) -> int {
    pool.reward_per_token_stored + spec_reward_delta(pool, now)
}

/// Whether the sync stays within machine bounds: the scaled product fits
/// the double-width integer, and the delta and the new accumulator fit the
/// stored width.
pub open spec fn spec_reward_per_token_fits(pool: Pool, now: u64) -> bool {
    pool.total_supply == 0 || ((spec_last_time_reward_applicable(pool, now) - pool.last_updated)
        * (pool.reward_rate as int) * (PRECISION as int) <= u128::MAX && spec_reward_delta(
        pool,
        now,
    ) <= u64::MAX && spec_reward_per_token(pool, now) <= u64::MAX)
}

/// What a participant is owed after a sync at `now`: the balance times the
/// accumulator growth since the last settlement, unscaled, plus what was
/// already pending.
pub open spec fn spec_earned(pool: Pool, user: User, now: u64) -> int {
    user.balance * (spec_reward_per_token(pool, now) - user.reward_per_token_paid) / (
    PRECISION as int) + user.pending_payout
}

/// Whether computing `spec_earned` stays within machine bounds.
pub open spec fn spec_earned_fits(pool: Pool, user: User, now: u64) -> bool {
    spec_reward_per_token_fits(pool, now) && user.balance * (spec_reward_per_token(pool, now)
        - user.reward_per_token_paid) / (PRECISION as int) <= u64::MAX && spec_earned(
        pool,
        user,
        now,
    ) <= u64::MAX
}

/// The pool after a sync at `now`: accumulator and update time brought
/// forward, everything else untouched.
pub open spec fn spec_synced_pool(pool: Pool, now: u64) -> Pool {
    Pool {
        reward_per_token_stored: spec_reward_per_token(pool, now) as u64,
        last_updated: spec_last_time_reward_applicable(pool, now),
        ..pool
    }
}

/// The position after a sync at `now`: entitlement moved into the pending
/// payout and the settlement snapshot advanced.
pub open spec fn spec_synced_user(pool: Pool, user: User, now: u64) -> User {
    User {
        pending_payout: spec_earned(pool, user, now) as u64,
        reward_per_token_paid: spec_reward_per_token(pool, now) as u64,
        ..user
    }
}

/// Rewards accrue until `now`, but never past the end of the epoch.
pub fn last_time_reward_applicable(pool: &Pool, now: u64) -> (r: u64)
    ensures
        r == spec_last_time_reward_applicable(*pool, now),
{
    if now < pool.period_finish {
        now
    } else {
        pool.period_finish
    }
}

/// The accumulator never shrinks: the delta a sync adds is non-negative.
proof fn lemma_reward_delta_nonnegative(pool: Pool, now: u64)
    requires
        pool.wf(),
        now >= pool.last_updated,
    ensures
        spec_reward_delta(pool, now) >= 0,
{
    if pool.total_supply != 0 {
        let t = spec_last_time_reward_applicable(pool, now) - pool.last_updated;
        lemma_div_pos_is_pos(t * pool.reward_rate * PRECISION, pool.total_supply as int);
    }
}

/// Computes the up-to-date reward-per-token accumulator without touching
/// the pool. Fails with `Overflow` exactly when the value no longer fits.
pub fn reward_per_token(pool: &Pool, now: u64) -> (r: Result<u64, ErrorCode>)
    requires
        pool.wf(),
        now >= pool.last_updated,
    ensures
        r is Ok <==> spec_reward_per_token_fits(*pool, now),
        r matches Ok(v) ==> v == spec_reward_per_token(*pool, now) && v
            >= pool.reward_per_token_stored,
        r is Err ==> r == Err::<u64, ErrorCode>(ErrorCode::Overflow),
{
    proof {
        lemma_reward_delta_nonnegative(*pool, now);
    }
    if pool.total_supply == 0 {
        return Ok(pool.reward_per_token_stored);
    }
    let applicable: u64 = last_time_reward_applicable(pool, now);
    let time_diff: u128 = (applicable - pool.last_updated) as u128;
    proof {
        lemma_mul_upper_bound(time_diff as int, u64::MAX as int, pool.reward_rate as int, u64::MAX as int);
    }
    let scaled_rate: u128 = time_diff * (pool.reward_rate as u128);
    let full: u128 = match scaled_rate.checked_mul(PRECISION as u128) {
        Some(v) => v,
        None => {
            return Err(ErrorCode::Overflow);
        },
    };
    let delta: u128 = full / (pool.total_supply as u128);
    if delta > (u64::MAX as u128) {
        return Err(ErrorCode::Overflow);
    }
    match pool.reward_per_token_stored.checked_add(delta as u64) {
        Some(v) => Ok(v),
        None => Err(ErrorCode::Overflow),
    }
}

/// Computes a participant's total entitlement at `now` without touching
/// any record. Fails with `Overflow` exactly when a step no longer fits.
pub fn earned(pool: &Pool, user: &User, now: u64) -> (r: Result<u64, ErrorCode>)
    requires
        pool.wf(),
        now >= pool.last_updated,
        user.reward_per_token_paid <= pool.reward_per_token_stored,
    ensures
        r is Ok <==> spec_earned_fits(*pool, *user, now),
        r matches Ok(v) ==> v == spec_earned(*pool, *user, now),
        r is Err ==> r == Err::<u64, ErrorCode>(ErrorCode::Overflow),
{
    let rpt: u64 = match reward_per_token(pool, now) {
        Ok(v) => v,
        Err(e) => {
            return Err(e);
        },
    };
    let diff: u64 = rpt - user.reward_per_token_paid;
    proof {
        lemma_mul_upper_bound(user.balance as int, u64::MAX as int, diff as int, u64::MAX as int);
        lemma_div_pos_is_pos((user.balance as int) * (diff as int), PRECISION as int);
    }
    let accrued_wide: u128 = (user.balance as u128) * (diff as u128) / (PRECISION as u128);
    if accrued_wide > (u64::MAX as u128) {
        return Err(ErrorCode::Overflow);
    }
    let accrued: u64 = accrued_wide as u64;
    match accrued.checked_add(user.pending_payout) {
        Some(v) => Ok(v),
        None => Err(ErrorCode::Overflow),
    }
}

/// Brings a pool and one participant's position up to date at `now`: the
/// linchpin sync that runs before every pool-mutating operation. Either
/// both records advance, or (on overflow) neither changes.
pub fn update_reward(pool: &mut Pool, user: &mut User, now: u64) -> (r: Result<(), ErrorCode>)
    requires
        old(pool).wf(),
        now >= old(pool).last_updated,
        old(user).reward_per_token_paid <= old(pool).reward_per_token_stored,
    ensures
        r is Ok <==> spec_earned_fits(*old(pool), *old(user), now),
        r is Ok ==> *final(pool) == spec_synced_pool(*old(pool), now) && *final(user)
            == spec_synced_user(*old(pool), *old(user), now),
        r is Err ==> r == Err::<(), ErrorCode>(ErrorCode::Overflow) && *final(pool) == *old(pool)
            && *final(user) == *old(user),
        final(pool).reward_per_token_stored >= old(pool).reward_per_token_stored,
        final(pool).wf(),
        final(user).reward_per_token_paid <= final(pool).reward_per_token_stored,
        final(pool).total_supply == old(pool).total_supply,
        final(user).balance == old(user).balance,
        final(user).pool == old(user).pool,
{
    let rpt: u64 = match reward_per_token(pool, now) {
        Ok(v) => v,
        Err(e) => {
            return Err(e);
        },
    };
    let pending: u64 = match earned(pool, user, now) {
        Ok(v) => v,
        Err(e) => {
            return Err(e);
        },
    };
    let applicable: u64 = last_time_reward_applicable(pool, now);
    pool.reward_per_token_stored = rpt;
    pool.last_updated = applicable;
    user.pending_payout = pending;
    user.reward_per_token_paid = rpt;
    Ok(())
}

/// Brings a pool alone up to date at `now`; used by operations that touch
/// no single position, such as funding a new epoch.
pub fn sync_pool(pool: &mut Pool, now: u64) -> (r: Result<(), ErrorCode>)
    requires
        old(pool).wf(),
        now >= old(pool).last_updated,
    ensures
        r is Ok <==> spec_reward_per_token_fits(*old(pool), now),
        r is Ok ==> *final(pool) == spec_synced_pool(*old(pool), now),
        r is Err ==> r == Err::<(), ErrorCode>(ErrorCode::Overflow) && *final(pool) == *old(pool),
        final(pool).reward_per_token_stored >= old(pool).reward_per_token_stored,
        final(pool).wf(),
        final(pool).total_supply == old(pool).total_supply,
{
    let rpt: u64 = match reward_per_token(pool, now) {
        Ok(v) => v,
        Err(e) => {
            return Err(e);
        },
    };
    let applicable: u64 = last_time_reward_applicable(pool, now);
    pool.reward_per_token_stored = rpt;
    pool.last_updated = applicable;
    Ok(())
}

/// Law: the reward-per-token accumulator never decreases. A sync at any
/// time `now` yields at least the stored value, and later syncs yield at
/// least as much as earlier ones; with the `ensures` of every mutating
/// operation (the stored accumulator never shrinks), the accumulator is
/// non-decreasing across any sequence of operations.
pub proof fn lemma_reward_per_token_monotonic(pool: Pool, now1: u64, now2: u64)
    requires
        pool.wf(),
        pool.last_updated <= now1 <= now2,
    ensures
        pool.reward_per_token_stored <= spec_reward_per_token(pool, now1),
        spec_reward_per_token(pool, now1) <= spec_reward_per_token(pool, now2),
{
    lemma_reward_delta_nonnegative(pool, now1);
    if pool.total_supply != 0 {
        let t1 = spec_last_time_reward_applicable(pool, now1) - pool.last_updated;
        let t2 = spec_last_time_reward_applicable(pool, now2) - pool.last_updated;
        assert(t1 <= t2);
        lemma_mul_inequality(t1, t2, pool.reward_rate as int);
        lemma_mul_inequality(
            t1 * (pool.reward_rate as int),
            t2 * (pool.reward_rate as int),
            PRECISION as int,
        );
        lemma_div_is_ordered(
            t1 * (pool.reward_rate as int) * (PRECISION as int),
            t2 * (pool.reward_rate as int) * (PRECISION as int),
            pool.total_supply as int,
        );
    }
}

/// Law: a deposit followed by an immediate withdrawal of the same amount
/// (same timestamp) restores the position's balance and the pool's total
/// exactly, and the pending payout ends at the value a single sync at that
/// time would give — the principal movement does not touch it.
pub proof fn lemma_deposit_withdraw_round_trip(pool: Pool, user: User, amount: u64, now: u64)
    requires
        pool.wf(),
        now >= pool.last_updated,
        user_matches_pool(pool, user),
        spec_deposit(pool, user, amount, now) is Ok,
    ensures
        ({
            let d = spec_deposit(pool, user, amount, now)->Ok_0;
            let w = spec_withdraw(d.0, d.1, amount, now);
            w is Ok && w->Ok_0.0.total_supply == pool.total_supply && w->Ok_0.1.balance
                == user.balance && w->Ok_0.1.pending_payout == spec_earned(pool, user, now) as u64
        }),
{
    lemma_reward_delta_nonnegative(pool, now);
    let p1 = spec_deposit(pool, user, amount, now)->Ok_0.0;
    let u1 = spec_deposit(pool, user, amount, now)->Ok_0.1;
    let applicable = spec_last_time_reward_applicable(pool, now);

    // After the deposit's sync, the update time has caught up with `now`
    // (capped at the epoch end), so a second sync at `now` adds nothing.
    assert(p1.last_updated == applicable);
    assert(spec_last_time_reward_applicable(p1, now) == applicable);
    if p1.total_supply != 0 {
        assert((applicable - applicable) * (p1.reward_rate as int) * (PRECISION as int) == 0);
        lemma_div_of0(p1.total_supply as int);
    }
    assert(spec_reward_delta(p1, now) == 0);
    assert(spec_reward_per_token(p1, now) == p1.reward_per_token_stored);

    // The position is settled against exactly that accumulator value, so the
    // second sync accrues nothing on top of the pending payout.
    assert(u1.reward_per_token_paid == p1.reward_per_token_stored);
    lemma_div_of0(PRECISION as int);
    assert(spec_earned(p1, u1, now) == u1.pending_payout);
    assert(spec_earned_fits(p1, u1, now));
}

/// What `process_init_pool` returns: a zeroed pool, or `InvalidDuration`
/// for an epoch length of zero or over a year.
pub open spec fn spec_init_pool(
    id: Identity,
    distributor: Identity,
    mint: Identity,
    reward_mint: Identity,
    duration: u64,
) -> Result<Pool, ErrorCode> {
    if duration == 0 || duration > MAX_DURATION_SECONDS {
        Err(ErrorCode::InvalidDuration)
    } else {
        Ok(
            Pool {
                id,
                distributor,
                mint,
                reward_mint,
                duration,
                period_finish: 0,
                reward_rate: 0,
                last_updated: 0,
                reward_per_token_stored: 0,
                total_supply: 0,
            },
        )
    }
}

/// Creates a pool with every accumulator zeroed. The epoch length must be
/// positive and at most a year.
pub fn process_init_pool(
    id: Identity,
    distributor: Identity,
    mint: Identity,
    reward_mint: Identity,
    duration: u64,
) -> (r: Result<Pool, ErrorCode>)
    ensures
        r == spec_init_pool(id, distributor, mint, reward_mint, duration),
        r matches Ok(p) ==> p.wf(),
{
    if duration == 0 {
        return Err(ErrorCode::InvalidDuration);
    }
    if duration > MAX_DURATION_SECONDS {
        return Err(ErrorCode::InvalidDuration);
    }
    Ok(
        Pool {
            id,
            distributor,
            mint,
            reward_mint,
            duration,
            period_finish: 0,
            reward_rate: 0,
            last_updated: 0,
            reward_per_token_stored: 0,
            total_supply: 0,
        },
    )
}

/// What `process_deposit` leaves behind on success: the synced records with
/// the amount added to both the position's balance and the pool's total.
pub open spec fn spec_deposit(pool: Pool, user: User, amount: u64, now: u64) -> Result<
    (Pool, User),
    ErrorCode,
> {
    if amount == 0 {
        Err(ErrorCode::ZeroAmount)
    } else if user.pool != pool.id {
        Err(ErrorCode::MismatchedUserPool)
    } else if !spec_earned_fits(pool, user, now) {
        Err(ErrorCode::Overflow)
    } else if pool.total_supply + amount > u64::MAX || user.balance + amount > u64::MAX {
        Err(ErrorCode::Overflow)
    } else {
        let p = spec_synced_pool(pool, now);
        let u = spec_synced_user(pool, user, now);
        Ok(
            (
                Pool { total_supply: (p.total_supply + amount) as u64, ..p },
                User { balance: (u.balance + amount) as u64, ..u },
            ),
        )
    }
}

/// Stakes `amount` into the pool: syncs both records, then adds the amount
/// to the position's balance and the pool's total. The ledger transfer of
/// the stake asset is the caller's to perform, atomically with this update.
pub fn process_deposit(pool: &mut Pool, user: &mut User, amount: u64, now: u64) -> (r: Result<
    (),
    ErrorCode,
>)
    requires
        old(pool).wf(),
        now >= old(pool).last_updated,
        old(user).reward_per_token_paid <= old(pool).reward_per_token_stored,
        old(user).balance <= old(pool).total_supply,
    ensures
        (match spec_deposit(*old(pool), *old(user), amount, now) {
            Ok(p) => r == Ok::<(), ErrorCode>(()) && *final(pool) == p.0 && *final(user) == p.1,
            Err(e) => r == Err::<(), ErrorCode>(e) && *final(pool) == *old(pool) && *final(user)
                == *old(user),
        }),
        final(pool).reward_per_token_stored >= old(pool).reward_per_token_stored,
        final(pool).wf(),
        user_matches_pool(*old(pool), *old(user)) ==> user_matches_pool(*final(pool), *final(user)),
{
    if amount == 0 {
        return Err(ErrorCode::ZeroAmount);
    }
    if user.pool != pool.id {
        return Err(ErrorCode::MismatchedUserPool);
    }
    let new_total: u64 = match pool.total_supply.checked_add(amount) {
        Some(v) => v,
        None => {
            return Err(ErrorCode::Overflow);
        },
    };
    let new_balance: u64 = match user.balance.checked_add(amount) {
        Some(v) => v,
        None => {
            return Err(ErrorCode::Overflow);
        },
    };
    update_reward(pool, user, now)?;
    pool.total_supply = new_total;
    user.balance = new_balance;
    Ok(())
}

/// What `process_withdraw` leaves behind on success: the synced records with
/// the amount taken from both the position's balance and the pool's total.
pub open spec fn spec_withdraw(pool: Pool, user: User, amount: u64, now: u64) -> Result<
    (Pool, User),
    ErrorCode,
> {
    if amount == 0 {
        Err(ErrorCode::ZeroAmount)
    } else if user.balance < amount {
        Err(ErrorCode::InsufficientFunds)
    } else if !spec_earned_fits(pool, user, now) {
        Err(ErrorCode::Overflow)
    } else {
        let p = spec_synced_pool(pool, now);
        let u = spec_synced_user(pool, user, now);
        Ok(
            (
                Pool { total_supply: (p.total_supply - amount) as u64, ..p },
                User { balance: (u.balance - amount) as u64, ..u },
            ),
        )
    }
}

/// Unstakes `amount`: syncs both records, then subtracts the amount from the
/// position's balance and the pool's total. The stake asset flows back to
/// the participant through the ledger, atomically with this update.
pub fn process_withdraw(pool: &mut Pool, user: &mut User, amount: u64, now: u64) -> (r: Result<
    (),
    ErrorCode,
>)
    requires
        old(pool).wf(),
        now >= old(pool).last_updated,
        user_matches_pool(*old(pool), *old(user)),
    ensures
        (match spec_withdraw(*old(pool), *old(user), amount, now) {
            Ok(p) => r == Ok::<(), ErrorCode>(()) && *final(pool) == p.0 && *final(user) == p.1,
            Err(e) => r == Err::<(), ErrorCode>(e) && *final(pool) == *old(pool) && *final(user)
                == *old(user),
        }),
        final(pool).reward_per_token_stored >= old(pool).reward_per_token_stored,
        final(pool).wf(),
        user_matches_pool(*final(pool), *final(user)),
{
    if amount == 0 {
        return Err(ErrorCode::ZeroAmount);
    }
    if user.balance < amount {
        return Err(ErrorCode::InsufficientFunds);
    }
    update_reward(pool, user, now)?;
    pool.total_supply = pool.total_supply - amount;
    user.balance = user.balance - amount;
    Ok(())
}

/// What `process_claim` leaves behind and pays out on success: the synced
/// records with the pending payout moved out of the position.
pub open spec fn spec_claim(pool: Pool, user: User, now: u64) -> Result<
    (Pool, User, u64),
    ErrorCode,
> {
    if !spec_earned_fits(pool, user, now) {
        Err(ErrorCode::Overflow)
    } else {
        let p = spec_synced_pool(pool, now);
        let u = spec_synced_user(pool, user, now);
        Ok((p, User { pending_payout: 0, ..u }, u.pending_payout))
    }
}

/// Claims every reward unit owed so far: syncs both records (which folds the
/// final accrual into the pending payout), zeroes the pending payout, and
/// returns the amount the ledger must pay the participant.
pub fn process_claim(pool: &mut Pool, user: &mut User, now: u64) -> (r: Result<u64, ErrorCode>)
    requires
        old(pool).wf(),
        now >= old(pool).last_updated,
        user_matches_pool(*old(pool), *old(user)),
    ensures
        (match spec_claim(*old(pool), *old(user), now) {
            Ok(p) => r == Ok::<u64, ErrorCode>(p.2) && *final(pool) == p.0 && *final(user) == p.1,
            Err(e) => r == Err::<u64, ErrorCode>(e) && *final(pool) == *old(pool) && *final(user)
                == *old(user),
        }),
        final(pool).reward_per_token_stored >= old(pool).reward_per_token_stored,
        final(pool).wf(),
        user_matches_pool(*final(pool), *final(user)),
{
    update_reward(pool, user, now)?;
    let amount: u64 = user.pending_payout;
    user.pending_payout = 0;
    Ok(amount)
}

/// What `process_add_reward` leaves behind on success: the synced pool with
/// a new rate spread over a fresh epoch starting at `now`. Funding an epoch
/// that has not finished folds the undistributed remainder into the new
/// rate.
pub open spec fn spec_add_reward(pool: Pool, signer: Identity, amount: u64, now: u64) -> Result<
    Pool,
    ErrorCode,
> {
    if amount == 0 {
        Err(ErrorCode::ZeroAmount)
    } else if signer != pool.distributor {
        Err(ErrorCode::NotDistributor)
    } else if !spec_reward_per_token_fits(pool, now) {
        Err(ErrorCode::Overflow)
    } else {
        let p = spec_synced_pool(pool, now);
        let funded = if now >= p.period_finish {
            amount as int
        } else {
            (p.period_finish - now) * (p.reward_rate as int) + amount
        };
        if funded > u64::MAX {
            Err(ErrorCode::Overflow)
        } else if funded / (p.duration as int) == 0 {
            Err(ErrorCode::ZeroRewardRate)
        } else if now + p.duration > u64::MAX {
            Err(ErrorCode::Overflow)
        } else {
            Ok(
                Pool {
                    reward_rate: (funded / (p.duration as int)) as u64,
                    last_updated: now,
                    period_finish: (now + p.duration) as u64,
                    ..p
                },
            )
        }
    }
}

/// Funds a reward epoch: syncs the pool, then spreads `amount` (plus
/// whatever an unfinished epoch had not yet distributed) evenly over a new
/// epoch of the pool's duration starting at `now`. A rate that would floor
/// to zero is rejected, so dust that could never accrue is never accepted.
/// Only the distributor may fund. The ledger transfer of `amount` into the
/// pool's reward balance is the caller's to perform, atomically.
pub fn process_add_reward(pool: &mut Pool, signer: Identity, amount: u64, now: u64) -> (r: Result<
    (),
    ErrorCode,
>)
    requires
        old(pool).wf(),
        now >= old(pool).last_updated,
    ensures
        (match spec_add_reward(*old(pool), signer, amount, now) {
            Ok(p) => r == Ok::<(), ErrorCode>(()) && *final(pool) == p,
            Err(e) => r == Err::<(), ErrorCode>(e) && *final(pool) == *old(pool),
        }),
        final(pool).reward_per_token_stored >= old(pool).reward_per_token_stored,
        final(pool).wf(),
{
    if amount == 0 {
        return Err(ErrorCode::ZeroAmount);
    }
    if signer != pool.distributor {
        return Err(ErrorCode::NotDistributor);
    }
    let rpt: u64 = match reward_per_token(pool, now) {
        Ok(v) => v,
        Err(e) => {
            return Err(e);
        },
    };
    let funded: u64 = if now >= pool.period_finish {
        amount
    } else {
        let remaining: u64 = pool.period_finish - now;
        let leftover: u64 = match remaining.checked_mul(pool.reward_rate) {
            Some(v) => v,
            None => {
                return Err(ErrorCode::Overflow);
            },
        };
        match amount.checked_add(leftover) {
            Some(v) => v,
            None => {
                return Err(ErrorCode::Overflow);
            },
        }
    };
    let new_rate: u64 = funded / pool.duration;
    if new_rate == 0 {
        return Err(ErrorCode::ZeroRewardRate);
    }
    let new_finish: u64 = match now.checked_add(pool.duration) {
        Some(v) => v,
        None => {
            return Err(ErrorCode::Overflow);
        },
    };
    pool.reward_per_token_stored = rpt;
    pool.reward_rate = new_rate;
    pool.last_updated = now;
    pool.period_finish = new_finish;
    Ok(())
}

/// Hands the distributor role to another identity. Distributor only.
pub fn process_set_rewards_distributor(
    pool: &mut Pool,
    signer: Identity,
    new_distributor: Identity,
) -> (r: Result<(), ErrorCode>)
    ensures
        signer == old(pool).distributor ==> r == Ok::<(), ErrorCode>(()) && *final(pool) == (Pool {
            distributor: new_distributor,
            ..*old(pool)
        }),
        signer != old(pool).distributor ==> r == Err::<(), ErrorCode>(ErrorCode::NotDistributor)
            && *final(pool) == *old(pool),
{
    if signer != pool.distributor {
        return Err(ErrorCode::NotDistributor);
    }
    pool.distributor = new_distributor;
    Ok(())
}

/// What `process_set_rewards_duration` returns: the duration changes only
/// between epochs, only within bounds, and only for the distributor.
pub open spec fn spec_set_rewards_duration(
    pool: Pool,
    signer: Identity,
    duration: u64,
    now: u64,
) -> Result<Pool, ErrorCode> {
    if duration == 0 || duration > MAX_DURATION_SECONDS {
        Err(ErrorCode::InvalidDuration)
    } else if signer != pool.distributor {
        Err(ErrorCode::NotDistributor)
    } else if now <= pool.period_finish {
        Err(ErrorCode::RewardsStillActive)
    } else {
        Ok(Pool { duration, ..pool })
    }
}

/// Changes the epoch length for future epochs. Rejected while an epoch is
/// still running, so a mid-epoch rate cannot be manipulated.
pub fn process_set_rewards_duration(pool: &mut Pool, signer: Identity, duration: u64, now: u64) -> (
    r: Result<(), ErrorCode>)
    requires
        old(pool).wf(),
    ensures
        (match spec_set_rewards_duration(*old(pool), signer, duration, now) {
            Ok(p) => r == Ok::<(), ErrorCode>(()) && *final(pool) == p,
            Err(e) => r == Err::<(), ErrorCode>(e) && *final(pool) == *old(pool),
        }),
        final(pool).wf(),
        final(pool).reward_per_token_stored == old(pool).reward_per_token_stored,
{
    if duration == 0 || duration > MAX_DURATION_SECONDS {
        return Err(ErrorCode::InvalidDuration);
    }
    if signer != pool.distributor {
        return Err(ErrorCode::NotDistributor);
    }
    if now <= pool.period_finish {
        return Err(ErrorCode::RewardsStillActive);
    }
    pool.duration = duration;
    Ok(())
}

} // verus!

