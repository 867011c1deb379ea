use vstd::prelude::*;

verus! {

/// Failure cases of the bonding-curve engine and its configuration.
#[derive(Clone, Copy, Debug, PartialEq, Eq, Structural)]
pub enum PumpfunError {
    /// A value fell below the configured minimum.
    ValueTooSmall,
    /// A value rose above the configured maximum.
    ValueTooLarge,
    /// A value was not among the allowed options, or the supply had a
    /// fractional whole-token remainder.
    ValueInvalid,
    /// The token would have 20 or more decimal places.
    DecimalOverflow,
    /// The swap amount was zero.
    InvalidAmount,
    /// The deadline passed before the operation ran.
    TransactionExpired,
    /// Trading was attempted before the delayed-trading window opened.
    TradeTooEarly,
    /// The curve reached its completion limit and no longer trades.
    CurveAlreadyCompleted,
    /// A buy exceeded the per-curve maximum buy amount.
    ExceedsMaxBuyAmount,
    /// A sell exceeded the per-curve maximum sell amount.
    ExceedsMaxSellAmount,
    /// The swap output fell below the (possibly scaled) minimum to receive.
    ReturnAmountTooSmall,
    /// A checked arithmetic step overflowed or underflowed.
    OverflowOrUnderflowOccurred,
    /// The caller is not the authority the operation demands.
    IncorrectAuthority,
    /// The window for editing the per-curve caps has closed.
    OverSetTime,
}

/// Failure cases of the reward-accrual engine.
#[derive(Clone, Copy, Debug, PartialEq, Eq, Structural)]
pub enum ErrorCode {
    /// The caller is not the pool's rewards distributor.
    NotDistributor,
    /// The amount was zero.
    ZeroAmount,
    /// The participant's staked balance is smaller than the withdrawal.
    InsufficientFunds,
    /// The position does not belong to this pool.
    MismatchedUserPool,
    /// A checked arithmetic step overflowed.
    Overflow,
    /// The current reward epoch has not finished yet.
    RewardsStillActive,
    /// The reward rate would floor to zero.
    ZeroRewardRate,
    /// The epoch duration is zero or longer than one year.
    InvalidDuration,
}

} // verus!
