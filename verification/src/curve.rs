use vstd::arithmetic::div_mod::{lemma_div_is_ordered, lemma_div_multiples_vanish};
use vstd::arithmetic::mul::{lemma_mul_inequality, lemma_mul_upper_bound};
use vstd::prelude::*;

use crate::config::{Config, Identity, FEE_BASIS_POINTS};
use crate::errors::PumpfunError;

verus! {

/// How long a curve must wait after creation before it trades, when the
/// deployment is not in instant-trading mode (24 hours, in seconds).
pub const TRADING_DELAY_SECONDS: i64 = 86400;

/// How long after creation the creator may still edit the per-curve caps
/// (8 hours, in seconds).
pub const CAP_EDIT_WINDOW_SECONDS: i64 = 28800;

/// Which asset the trader hands in.
#[derive(Clone, Copy, Debug, PartialEq, Eq, Structural)]
pub enum SwapDirection {
    /// Reserve asset in, traded tokens out.
    Buy,
    /// Traded tokens in, reserve asset out.
    Sell,
}

/// The value movement a successful swap asks of the surrounding ledger.
#[derive(Clone, Copy, Debug, PartialEq, Eq, Structural)]
pub struct SwapResult {
    /// The input actually traded; a buy may be clamped below the request
    /// when the curve is close to its completion limit.
    pub amount_in: u64,
    /// What the trader receives, net of the fee.
    pub amount_out: u64,
    /// The fee owed to the team wallet, in reserve-asset units.
    pub fee: u64,
    /// Whether this swap drove the reserve to the completion limit.
    pub completed: bool,
}

/// One token's constant-product market: the two reserves, the completion
/// limit, optional per-trade caps, and the completion flag.
#[derive(Clone, Copy, Debug, PartialEq, Eq, Structural)]
pub struct BondingCurve {
    pub token_mint: Identity,
    pub creator: Identity,
    /// When the curve was created (seconds); gates delayed trading and
    /// cap edits.
    pub created_time: i64,
    /// The reserve-asset balance the curve started with.
    pub init_lamport: u64,
    /// Current reserve-asset balance (`y` in `x * y = k`).
    pub reserve_lamport: u64,
    /// Current traded-token balance (`x` in `x * y = k`).
    pub reserve_token: u64,
    /// Largest single buy; zero means no cap.
    pub max_buy_amount: u64,
    /// Largest single sell; zero means no cap.
    pub max_sell_amount: u64,
    /// Reserve-asset level at which the curve freezes.
    pub curve_limit: u64,
    /// Once true, the curve rejects every further trade.
    pub is_completed: bool,
}

impl BondingCurve {
    /// Curve validity: creation time is a real (non-negative) timestamp.
    pub open spec fn wf(self) -> bool {
        self.created_time >= 0
    }

    /// The state `update_reserves` leaves behind: both reserves replaced,
    /// and the completion flag raised (never lowered) when the new reserve
    /// balance reaches the limit.
    pub open spec fn spec_update_reserves(self, reserve_token: u64, reserve_lamport: u64) -> BondingCurve {
        BondingCurve {
            reserve_token,
            reserve_lamport,
            is_completed: reserve_lamport >= self.curve_limit || self.is_completed,
            ..self
        }
    }

    /// Replaces the reserves and freezes the curve when the reserve-asset
    /// balance has reached the completion limit. Returns whether the limit
    /// is reached.
    pub fn update_reserves(&mut self, reserve_token: u64, reserve_lamport: u64) -> (completed: bool)
        ensures
            *final(self) == old(self).spec_update_reserves(reserve_token, reserve_lamport),
            completed == (reserve_lamport >= old(self).curve_limit),
            old(self).is_completed ==> final(self).is_completed,
    {
        self.reserve_token = reserve_token;
        self.reserve_lamport = reserve_lamport;
        if reserve_lamport >= self.curve_limit {
            self.is_completed = true;
            return true;
        }
        false
    }
}

/// Gross reserve-asset output of selling `dx` tokens into the curve:
/// `y * dx / (x + dx)`, by the constant product `x * y = k`.
pub open spec fn spec_sell_gross(curve: BondingCurve, dx: int) -> int {
    (curve.reserve_lamport * dx) / (curve.reserve_token + dx)
}

/// Sell quote as (net output, fee): the fee is taken from the gross
/// reserve-asset output, in basis points.
pub open spec fn spec_sell_quote(curve: BondingCurve, dx: int, sell_fee: u128) -> (int, int) {
    let gross = spec_sell_gross(curve, dx);
    let fee = gross * sell_fee / (FEE_BASIS_POINTS as int);
    (gross - fee, fee)
}

/// Buy quote as (token output, fee): the fee is taken from the reserve-asset
/// input first, and the remainder buys tokens by the constant product:
/// `x * dy_net / (y + dy_net)`.
pub open spec fn spec_buy_quote(curve: BondingCurve, dy: int, buy_fee: u128) -> (int, int) {
    let fee = dy * buy_fee / (FEE_BASIS_POINTS as int);
    let net_in = dy - fee;
    let out = (curve.reserve_token * net_in) / (curve.reserve_lamport + net_in);
    (out, fee)
}

/// What `cal_amount_out` returns as (output, fee). An empty pool on either
/// side quotes zero.
pub open spec fn spec_cal_amount_out(
    curve: BondingCurve,
    amount: int,
    direction: SwapDirection,
    sell_fee: u128,
    buy_fee: u128,
) -> (int, int) {
    if curve.reserve_token == 0 || curve.reserve_lamport == 0 {
        (0, 0)
    } else if direction is Sell {
        spec_sell_quote(curve, amount, sell_fee)
    } else {
        spec_buy_quote(curve, amount, buy_fee)
    }
}

/// Helper fact: a product scaled down by a divisor at least as large as one
/// factor cannot exceed the other factor: `a * b / c <= a` when `b <= c`.
pub proof fn lemma_mul_div_le(a: int, b: int, c: int)
    requires
        0 <= a,
        0 <= b,
        b <= c,
        0 < c,
    ensures
        a * b / c <= a,
{
    lemma_mul_inequality(b, c, a);
    lemma_div_is_ordered(a * b, a * c, c);
    lemma_div_multiples_vanish(a, c);
}

impl BondingCurve {
    /// Quotes a swap without touching the curve: returns the output amount
    /// and the fee (always in reserve-asset units). Never fails for fee
    /// rates within 100%: every intermediate product fits a double-width
    /// integer and the quote never exceeds the reserve it draws from.
    pub fn cal_amount_out(
        &self,
        amount: u64,
        direction: SwapDirection,
        platform_sell_fee: u128,
        platform_buy_fee: u128,
    ) -> (r: Result<(u64, u64), PumpfunError>)
        requires
            platform_sell_fee <= FEE_BASIS_POINTS,
            platform_buy_fee <= FEE_BASIS_POINTS,
        ensures
            ({
                let q = spec_cal_amount_out(
                    *self,
                    amount as int,
                    direction,
                    platform_sell_fee,
                    platform_buy_fee,
                );
                r matches Ok(v) && v.0 == q.0 && v.1 == q.1
            }),
            direction is Sell ==> spec_cal_amount_out(
                *self,
                amount as int,
                direction,
                platform_sell_fee,
                platform_buy_fee,
            ).0 + spec_cal_amount_out(
                *self,
                amount as int,
                direction,
                platform_sell_fee,
                platform_buy_fee,
            ).1 <= self.reserve_lamport,
            direction is Buy ==> spec_cal_amount_out(
                *self,
                amount as int,
                direction,
                platform_sell_fee,
                platform_buy_fee,
            ).0 <= self.reserve_token && spec_cal_amount_out(
                *self,
                amount as int,
                direction,
                platform_sell_fee,
                platform_buy_fee,
            ).1 <= amount,
    {
        if self.reserve_token == 0 || self.reserve_lamport == 0 {
            return Ok((0, 0));
        }
        let x: u128 = self.reserve_token as u128;
        let y: u128 = self.reserve_lamport as u128;
        let amount_wide: u128 = amount as u128;
        match direction {
            SwapDirection::Sell => {
                proof {
                    lemma_mul_upper_bound(y as int, u64::MAX as int, amount_wide as int, u64::MAX as int);
                }
                let numerator: u128 = y * amount_wide;
                let denominator: u128 = x + amount_wide;
                let gross: u128 = numerator / denominator;
                proof {
                    lemma_mul_div_le(y as int, amount_wide as int, denominator as int);
                    lemma_mul_upper_bound(gross as int, u64::MAX as int, platform_sell_fee as int, FEE_BASIS_POINTS as int);
                    lemma_mul_div_le(gross as int, platform_sell_fee as int, FEE_BASIS_POINTS as int);
                }
                let fee: u128 = gross * platform_sell_fee / FEE_BASIS_POINTS;
                let net: u128 = gross - fee;
                Ok(((net as u64), (fee as u64)))
            },
            SwapDirection::Buy => {
                proof {
                    lemma_mul_upper_bound(amount_wide as int, u64::MAX as int, platform_buy_fee as int, FEE_BASIS_POINTS as int);
                    lemma_mul_div_le(amount_wide as int, platform_buy_fee as int, FEE_BASIS_POINTS as int);
                }
                let fee: u128 = amount_wide * platform_buy_fee / FEE_BASIS_POINTS;
                let net_in: u128 = amount_wide - fee;
                proof {
                    lemma_mul_upper_bound(x as int, u64::MAX as int, net_in as int, u64::MAX as int);
                }
                let numerator: u128 = x * net_in;
                let denominator: u128 = y + net_in;
                let out: u128 = numerator / denominator;
                proof {
                    lemma_mul_div_le(x as int, net_in as int, denominator as int);
                }
                Ok(((out as u64), (fee as u64)))
            },
        }
    }
}

/// The minimum-receive floor of a clamped buy, scaled down by the exact
/// ratio of the clamped input to the requested input.
pub open spec fn spec_scaled_minimum(minimum_receive_amount: u64, remaining: int, amount: u64) -> int {
    minimum_receive_amount * remaining / (amount as int)
}

/// The reserve-asset room left under the completion limit.
pub open spec fn spec_remaining_to_limit(curve: BondingCurve) -> int {
    if curve.curve_limit >= curve.reserve_lamport {
        curve.curve_limit - curve.reserve_lamport
    } else {
        0
    }
}

/// Everything `swap` decides, as a function of the old curve and the
/// request: either the new curve with the value movement it asks for, or
/// the exact error. The gates run in order: deadline, trading window,
/// completion, zero amount, per-direction cap. A buy is then clamped to the
/// room left under the completion limit, with the minimum-receive floor
/// scaled down in proportion, and the quote must clear that floor.
pub open spec fn spec_swap(
    curve: BondingCurve,
    config: Config,
    amount: u64,
    direction: SwapDirection,
    minimum_receive_amount: u64,
    deadline: i64,
    now: i64,
) -> Result<(BondingCurve, SwapResult), PumpfunError> {
    if now > deadline {
        Err(PumpfunError::TransactionExpired)
    } else if !config.is_instant_trading && now - curve.created_time < TRADING_DELAY_SECONDS {
        Err(PumpfunError::TradeTooEarly)
    } else if curve.is_completed {
        Err(PumpfunError::CurveAlreadyCompleted)
    } else if amount == 0 {
        Err(PumpfunError::InvalidAmount)
    } else if direction is Buy && curve.max_buy_amount != 0 && amount >= curve.max_buy_amount {
        Err(PumpfunError::ExceedsMaxBuyAmount)
    } else if direction is Sell && curve.max_sell_amount != 0 && amount >= curve.max_sell_amount {
        Err(PumpfunError::ExceedsMaxSellAmount)
    } else {
        let remaining = spec_remaining_to_limit(curve);
        let clamped = direction is Buy && amount > remaining;
        let amount_in = if clamped {
            remaining
        } else {
            amount as int
        };
        let min_out = if clamped {
            spec_scaled_minimum(minimum_receive_amount, remaining, amount)
        } else {
            minimum_receive_amount as int
        };
        let q = spec_cal_amount_out(
            curve,
            amount_in,
            direction,
            config.platform_sell_fee,
            config.platform_buy_fee,
        );
        if q.0 < min_out {
            Err(PumpfunError::ReturnAmountTooSmall)
        } else if direction is Sell {
            let new_token = curve.reserve_token + amount_in;
            let new_lamport = curve.reserve_lamport - (q.0 + q.1);
            if new_token > u64::MAX {
                Err(PumpfunError::OverflowOrUnderflowOccurred)
            } else {
                Ok(
                    (
                        curve.spec_update_reserves(new_token as u64, new_lamport as u64),
                        SwapResult {
                            amount_in: amount_in as u64,
                            amount_out: q.0 as u64,
                            fee: q.1 as u64,
                            completed: new_lamport >= curve.curve_limit,
                        },
                    ),
                )
            }
        } else {
            let net_in = amount_in - q.1;
            let new_token = curve.reserve_token - q.0;
            let new_lamport = curve.reserve_lamport + net_in;
            if new_lamport > u64::MAX {
                Err(PumpfunError::OverflowOrUnderflowOccurred)
            } else {
                Ok(
                    (
                        curve.spec_update_reserves(new_token as u64, new_lamport as u64),
                        SwapResult {
                            amount_in: amount_in as u64,
                            amount_out: q.0 as u64,
                            fee: q.1 as u64,
                            completed: new_lamport >= curve.curve_limit,
                        },
                    ),
                )
            }
        }
    }
}

impl BondingCurve {
    /// Executes one swap against the curve.
    ///
    /// On success the reserves are replaced by the post-trade balances, the
    /// completion flag is raised when the reserve reaches the limit, and the
    /// returned `SwapResult` names the transfers the ledger must perform.
    /// On any error the curve is untouched. The completion flag never goes
    /// back down.
    pub fn swap(
        &mut self,
        config: &Config,
        amount: u64,
        direction: SwapDirection,
        minimum_receive_amount: u64,
        deadline: i64,
        now: i64,
    ) -> (r: Result<SwapResult, PumpfunError>)
        requires
            old(self).wf(),
            config.wf(),
            now >= 0,
        ensures
            (match spec_swap(*old(self), *config, amount, direction, minimum_receive_amount, deadline, now) {
                Ok(p) => r == Ok::<SwapResult, PumpfunError>(p.1) && *final(self) == p.0,
                Err(e) => r == Err::<SwapResult, PumpfunError>(e) && *final(self) == *old(self),
            }),
            old(self).is_completed ==> final(self).is_completed,
            final(self).wf(),
    {
        if now > deadline {
            return Err(PumpfunError::TransactionExpired);
        }
        if !config.is_instant_trading && now - self.created_time < TRADING_DELAY_SECONDS {
            return Err(PumpfunError::TradeTooEarly);
        }
        if self.is_completed {
            return Err(PumpfunError::CurveAlreadyCompleted);
        }
        if amount == 0 {
            return Err(PumpfunError::InvalidAmount);
        }
        match direction {
            SwapDirection::Buy => {
                if self.max_buy_amount != 0 && amount >= self.max_buy_amount {
                    return Err(PumpfunError::ExceedsMaxBuyAmount);
                }
            },
            SwapDirection::Sell => {
                if self.max_sell_amount != 0 && amount >= self.max_sell_amount {
                    return Err(PumpfunError::ExceedsMaxSellAmount);
                }
            },
        }

        // Clamp a buy to the room left under the completion limit, scaling
        // the minimum-receive floor by the same ratio.
        let remaining: u64 = if self.curve_limit >= self.reserve_lamport {
            self.curve_limit - self.reserve_lamport
        } else {
            0
        };
        let clamped = matches!(direction, SwapDirection::Buy) && amount > remaining;
        let amount_in: u64 = if clamped {
            remaining
        } else {
            amount
        };
        let min_out: u64 = if clamped {
            proof {
                lemma_mul_upper_bound(
                    minimum_receive_amount as int,
                    u64::MAX as int,
                    remaining as int,
                    u64::MAX as int,
                );
                lemma_mul_div_le(minimum_receive_amount as int, remaining as int, amount as int);
            }
            (((minimum_receive_amount as u128) * (remaining as u128)) / (amount as u128)) as u64
        } else {
            minimum_receive_amount
        };

        let quote = self.cal_amount_out(
            amount_in,
            direction,
            config.platform_sell_fee,
            config.platform_buy_fee,
        )?;
        let (amount_out, fee): (u64, u64) = quote;

        if amount_out < min_out {
            return Err(PumpfunError::ReturnAmountTooSmall);
        }

        match direction {
            SwapDirection::Sell => {
                // The whole gross output (net plus fee) leaves the reserve.
                let gross: u64 = amount_out + fee;
                let new_reserve_token: u64 = match self.reserve_token.checked_add(amount_in) {
                    Some(v) => v,
                    None => {
                        return Err(PumpfunError::OverflowOrUnderflowOccurred);
                    },
                };
                let new_reserve_lamport: u64 = self.reserve_lamport - gross;
                let completed = self.update_reserves(new_reserve_token, new_reserve_lamport);
                Ok(SwapResult { amount_in, amount_out, fee, completed })
            },
            SwapDirection::Buy => {
                // Only the input net of the fee enters the reserve; the fee
                // goes to the team wallet.
                let net_in: u64 = amount_in - fee;
                let new_reserve_token: u64 = self.reserve_token - amount_out;
                let new_reserve_lamport: u64 = match self.reserve_lamport.checked_add(net_in) {
                    Some(v) => v,
                    None => {
                        return Err(PumpfunError::OverflowOrUnderflowOccurred);
                    },
                };
                let completed = self.update_reserves(new_reserve_token, new_reserve_lamport);
                Ok(SwapResult { amount_in, amount_out, fee, completed })
            },
        }
    }
}

/// `10^n`, the number of base units in one whole token of `n` decimals.
pub open spec fn pow10(n: nat) -> nat
    decreases n,
{
    if n == 0 {
        1
    } else {
        10 * pow10((n - 1) as nat)
    }
}

/// `pow10` grows with its argument.
proof fn lemma_pow10_monotonic(a: nat, b: nat)
    requires
        a <= b,
    ensures
        pow10(a) <= pow10(b),
    decreases b,
{
    if a < b {
        lemma_pow10_monotonic(a, (b - 1) as nat);
        assert(pow10(b) == 10 * pow10((b - 1) as nat));
    }
}

/// Every power of ten a valid decimals value can ask for fits in `u64`.
proof fn lemma_pow10_19_value()
    ensures
        pow10(19) == 10_000_000_000_000_000_000,
{
    reveal_with_fuel(pow10, 21);
}

/// `10^n` for `n < 20`; every such power fits in `u64`.
fn pow10_exec(n: u8) -> (r: u64)
    requires
        n < 20,
    ensures
        r == pow10(n as nat),
{
    let mut r: u64 = 1;
    let mut i: u8 = 0;
    while i < n
        invariant
            i <= n,
            n < 20,
            r == pow10(i as nat),
        decreases n - i,
    {
        proof {
            lemma_pow10_monotonic(i as nat + 1, 19);
            lemma_pow10_19_value();
            assert(pow10(i as nat + 1) == 10 * pow10(i as nat));
        }
        r = r * 10;
        i = i + 1;
    }
    r
}

/// What `launch` returns: either the fresh curve together with the token
/// amount owed to the team wallet, or the exact validation error. The checks
/// run in order: the decimals bound, the whole-token supply check, then the
/// three configured policies (reserve amount, whole-token supply, decimals).
/// The launch share of the supply seeds the curve; the rest goes to the team.
pub open spec fn spec_launch(
    config: Config,
    token_mint: Identity,
    creator: Identity,
    decimals: u8,
    token_supply: u64,
    reserve_lamport: u64,
    curve_limit: u64,
    launch_share_pct: u64,
    now: i64,
) -> Result<(BondingCurve, u64), PumpfunError> {
    let multiplier = pow10(decimals as nat) as int;
    if decimals >= 20 {
        Err(PumpfunError::DecimalOverflow)
    } else if token_supply as int % multiplier != 0 {
        Err(PumpfunError::ValueInvalid)
    } else if config.lamport_amount_config.spec_validate(reserve_lamport) is Err {
        Err(config.lamport_amount_config.spec_validate(reserve_lamport)->Err_0)
    } else if config.token_supply_config.spec_validate(
        (token_supply as int / multiplier) as u64,
    ) is Err {
        Err(config.token_supply_config.spec_validate((token_supply as int / multiplier) as u64)->Err_0)
    } else if config.token_decimals_config.spec_validate(decimals as u64) is Err {
        Err(config.token_decimals_config.spec_validate(decimals as u64)->Err_0)
    } else {
        let reserve_token = token_supply * launch_share_pct / 100;
        Ok(
            (
                BondingCurve {
                    token_mint,
                    creator,
                    created_time: now,
                    init_lamport: reserve_lamport,
                    reserve_lamport,
                    reserve_token: reserve_token as u64,
                    max_buy_amount: 0,
                    max_sell_amount: 0,
                    curve_limit,
                    is_completed: false,
                },
                (token_supply - reserve_token) as u64,
            ),
        )
    }
}

/// Creates a curve for a newly issued token.
///
/// Validates the launch parameters against the deployment policies, splits
/// the fixed supply between the curve (`launch_share_pct` percent, floored)
/// and the team wallet, and starts the curve with the given reserve-asset
/// balance, uncapped and incomplete.
pub fn launch(
    config: &Config,
    token_mint: Identity,
    creator: Identity,
    decimals: u8,
    token_supply: u64,
    reserve_lamport: u64,
    curve_limit: u64,
    launch_share_pct: u64,
    now: i64,
) -> (r: Result<(BondingCurve, u64), PumpfunError>)
    requires
        launch_share_pct <= 100,
        now >= 0,
    ensures
        r == spec_launch(
            *config,
            token_mint,
            creator,
            decimals,
            token_supply,
            reserve_lamport,
            curve_limit,
            launch_share_pct,
            now,
        ),
        r matches Ok(p) ==> p.0.wf() && p.0.reserve_token + p.1 == token_supply
            && !p.0.is_completed,
{
    if decimals >= 20 {
        return Err(PumpfunError::DecimalOverflow);
    }
    let multiplier: u64 = pow10_exec(decimals);
    proof {
        assert(pow10(decimals as nat) >= pow10(0)) by {
            lemma_pow10_monotonic(0, decimals as nat);
        }
    }
    if token_supply % multiplier != 0 {
        return Err(PumpfunError::ValueInvalid);
    }
    if let Err(e) = config.lamport_amount_config.validate(reserve_lamport) {
        return Err(e);
    }
    if let Err(e) = config.token_supply_config.validate(token_supply / multiplier) {
        return Err(e);
    }
    if let Err(e) = config.token_decimals_config.validate(decimals as u64) {
        return Err(e);
    }
    proof {
        lemma_mul_upper_bound(token_supply as int, u64::MAX as int, launch_share_pct as int, 100);
        lemma_mul_div_le(token_supply as int, launch_share_pct as int, 100);
    }
    let reserve_token: u64 = (((token_supply as u128) * (launch_share_pct as u128)) / 100) as u64;
    let amount_to_team: u64 = token_supply - reserve_token;
    Ok(
        (
            BondingCurve {
                token_mint,
                creator,
                created_time: now,
                init_lamport: reserve_lamport,
                reserve_lamport,
                reserve_token,
                max_buy_amount: 0,
                max_sell_amount: 0,
                curve_limit,
                is_completed: false,
            },
            amount_to_team,
        ),
    )
}

/// What `process_set_max_amounts` leaves behind and returns: the caps are
/// editable by the creator alone, and only within the edit window after
/// creation.
pub open spec fn spec_set_max_amounts(
    curve: BondingCurve,
    signer: Identity,
    max_buy_amount: u64,
    max_sell_amount: u64,
    now: i64,
) -> Result<BondingCurve, PumpfunError> {
    if signer != curve.creator {
        Err(PumpfunError::IncorrectAuthority)
    } else if now - curve.created_time > CAP_EDIT_WINDOW_SECONDS {
        Err(PumpfunError::OverSetTime)
    } else {
        Ok(BondingCurve { max_buy_amount, max_sell_amount, ..curve })
    }
}

/// Sets the per-trade caps (zero disables a cap). Only the curve's creator,
/// and only within the edit window after creation.
pub fn process_set_max_amounts(
    curve: &mut BondingCurve,
    signer: Identity,
    max_buy_amount: u64,
    max_sell_amount: u64,
    now: i64,
) -> (r: Result<(), PumpfunError>)
    requires
        old(curve).wf(),
        now >= 0,
    ensures
        (match spec_set_max_amounts(*old(curve), signer, max_buy_amount, max_sell_amount, now) {
            Ok(c) => r == Ok::<(), PumpfunError>(()) && *final(curve) == c,
            Err(e) => r == Err::<(), PumpfunError>(e) && *final(curve) == *old(curve),
        }),
        old(curve).is_completed == final(curve).is_completed,
{
    if signer != curve.creator {
        return Err(PumpfunError::IncorrectAuthority);
    }
    if now - curve.created_time > CAP_EDIT_WINDOW_SECONDS {
        return Err(PumpfunError::OverSetTime);
    }
    curve.max_buy_amount = max_buy_amount;
    curve.max_sell_amount = max_sell_amount;
    Ok(())
}

/// Launches a curve and performs the creator's initial buy in one atomic
/// operation: the swap runs against the freshly created curve, and if either
/// half fails, nothing is returned. The swap is gated like any other, so
/// without instant trading the combined operation fails on the trading
/// window.
pub fn launch_and_swap(
    config: &Config,
    token_mint: Identity,
    creator: Identity,
    decimals: u8,
    token_supply: u64,
    reserve_lamport: u64,
    curve_limit: u64,
    launch_share_pct: u64,
    swap_amount: u64,
    minimum_receive_amount: u64,
    deadline: i64,
    now: i64,
) -> (r: Result<(BondingCurve, u64, SwapResult), PumpfunError>)
    requires
        config.wf(),
        launch_share_pct <= 100,
        now >= 0,
    ensures
        (match spec_launch(
            *config,
            token_mint,
            creator,
            decimals,
            token_supply,
            reserve_lamport,
            curve_limit,
            launch_share_pct,
            now,
        ) {
            Err(e) => r == Err::<(BondingCurve, u64, SwapResult), PumpfunError>(e),
            Ok(l) => (match spec_swap(
                l.0,
                *config,
                swap_amount,
                SwapDirection::Buy,
                minimum_receive_amount,
                deadline,
                now,
            ) {
                Err(e) => r == Err::<(BondingCurve, u64, SwapResult), PumpfunError>(e),
                Ok(s) => r == Ok::<(BondingCurve, u64, SwapResult), PumpfunError>(
                    (s.0, l.1, s.1),
                ),
            }),
        }),
{
    let (mut curve, amount_to_team) = launch(
        config,
        token_mint,
        creator,
        decimals,
        token_supply,
        reserve_lamport,
        curve_limit,
        launch_share_pct,
        now,
    )?;
    let swapped = curve.swap(
        config,
        swap_amount,
        SwapDirection::Buy,
        minimum_receive_amount,
        deadline,
        now,
    )?;
    Ok((curve, amount_to_team, swapped))
}

/// Law: reserves never go negative. Both reserves live in an unsigned
/// machine word, every arithmetic step of a swap is checked, and a request
/// that cannot be honoured fails with the curve untouched (the atomicity
/// half is an `ensures` of `swap`).
pub proof fn lemma_reserves_stay_non_negative(
    curve: BondingCurve,
    config: Config,
    amount: u64,
    direction: SwapDirection,
    minimum_receive_amount: u64,
    deadline: i64,
    now: i64,
)
    ensures
        (match spec_swap(curve, config, amount, direction, minimum_receive_amount, deadline, now) {
            Ok(p) => p.0.reserve_lamport >= 0 && p.0.reserve_token >= 0,
            Err(_) => true,
        }),
{
}

/// Once a curve is completed, every further swap request fails; and when
/// the request would otherwise be timely, it fails precisely with the
/// completion error. Together with the completion flag never being lowered
/// (an `ensures` of `swap` and `update_reserves`), completion is permanent.
pub proof fn lemma_completed_curve_rejects_swaps(
    curve: BondingCurve,
    config: Config,
    amount: u64,
    direction: SwapDirection,
    minimum_receive_amount: u64,
    deadline: i64,
    now: i64,
)
    requires
        curve.is_completed,
    ensures
        spec_swap(curve, config, amount, direction, minimum_receive_amount, deadline, now) is Err,
        now <= deadline && (config.is_instant_trading || now - curve.created_time
            >= TRADING_DELAY_SECONDS) ==> spec_swap(
            curve,
            config,
            amount,
            direction,
            minimum_receive_amount,
            deadline,
            now,
        ) == Err::<(BondingCurve, SwapResult), PumpfunError>(PumpfunError::CurveAlreadyCompleted),
{
}

} // verus!
