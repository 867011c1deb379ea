use vstd::prelude::*;

use crate::config::Identity;

verus! {

// Fire-and-forget notifications the host emits after each successful
// operation. The engines never read them back; the surrounding runtime
// builds one from the operation's inputs and outputs and hands it to its
// event sink.

/// A buy drove a curve's reserve to its completion limit.
#[derive(Clone, Copy, Debug, PartialEq, Eq, Structural)]
pub struct CompleteEvent {
    pub user: Identity,
    pub mint: Identity,
    pub bonding_curve: Identity,
}

/// The instant-trading flag was switched.
#[derive(Clone, Copy, Debug, PartialEq, Eq, Structural)]
pub struct InstantModeSwitched {
    pub instant_trade: bool,
}

/// A curve's per-trade caps were edited.
#[derive(Clone, Copy, Debug, PartialEq, Eq, Structural)]
pub struct MaxAmountsSet {
    pub bonding_curve: Identity,
    pub creator: Identity,
    pub modified_time: i64,
    pub max_buy_amount: u64,
    pub max_sell_amount: u64,
}

/// A staking pool was created.
#[derive(Clone, Copy, Debug, PartialEq, Eq, Structural)]
pub struct InitializedPoolEvent {
    pub pool: Identity,
    pub mint: Identity,
    pub reward: Identity,
    pub distributor: Identity,
    pub duration: u64,
    pub timestamp: u64,
}

/// A distributor funded a reward epoch.
#[derive(Clone, Copy, Debug, PartialEq, Eq, Structural)]
pub struct AddedRewardEvent {
    pub pool: Identity,
    pub contributor: Identity,
    pub amount: u64,
    /// The epoch's full budget after the refill: rate times duration.
    pub new_pool_reward_amount: u64,
    pub timestamp: u64,
}

/// A participant staked into a pool.
#[derive(Clone, Copy, Debug, PartialEq, Eq, Structural)]
pub struct DepositEvent {
    pub pool: Identity,
    pub depositor: Identity,
    pub amount: u64,
    pub timestamp: u64,
}

/// A participant unstaked from a pool.
#[derive(Clone, Copy, Debug, PartialEq, Eq, Structural)]
pub struct WithdrawEvent {
    pub pool: Identity,
    pub withdrawer: Identity,
    pub amount: u64,
    pub timestamp: u64,
}

/// A participant collected their pending rewards.
#[derive(Clone, Copy, Debug, PartialEq, Eq, Structural)]
pub struct ClaimEvent {
    pub pool: Identity,
    pub recipient: Identity,
    pub amount: u64,
    pub timestamp: u64,
}

/// The distributor role moved to another identity.
#[derive(Clone, Copy, Debug, PartialEq, Eq, Structural)]
pub struct SetDistributorEvent {
    pub pool: Identity,
    pub new_distributor: Identity,
    pub timestamp: u64,
}

/// The epoch length changed between epochs.
#[derive(Clone, Copy, Debug, PartialEq, Eq, Structural)]
pub struct SetDurationEvent {
    pub pool: Identity,
    pub duration: u64,
    pub timestamp: u64,
}

} // verus!
