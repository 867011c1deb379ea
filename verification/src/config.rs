use vstd::prelude::*;

use crate::errors::PumpfunError;

verus! {

/// A participant, wallet, asset or record identifier, reduced to a plain
/// number. The host platform keys every persisted record by such a value.
pub type Identity = u64;

/// The identifier of a record slot that has not been assigned yet.
pub const NO_IDENTITY: Identity = 0;

/// Fees are expressed in basis points out of this denominator (100%).
pub const FEE_BASIS_POINTS: u128 = 10000;

/// The largest number of decimal places a launched token may have.
pub const MAX_DECIMALS: u64 = 20;

/// Whether every element of the sequence is strictly below the bound.
pub open spec fn seq_all_below(s: Seq<u64>, bound: u64) -> bool {
    forall|k: int| 0 <= k < s.len() ==> s[k] < bound
}

/// Scans a vector for an element at or above the bound.
fn all_below(options: &Vec<u64>, bound: u64) -> (r: bool)
    ensures
        r == seq_all_below(options@, bound),
{
    let n = options.len();
    let mut i: usize = 0;
    while i < n
        invariant
            n == options@.len(),
            i <= n,
            forall|k: int| 0 <= k < i ==> options@[k] < bound,
        decreases n - i,
    {
        if options[i] >= bound {
            assert(!seq_all_below(options@, bound)) by {
                assert(0 <= i as int && (i as int) < options@.len());
                assert(options@[i as int] >= bound);
            }
            return false;
        }
        i = i + 1;
    }
    true
}

/// A validation policy for one numeric launch parameter: either a range with
/// optional bounds, or an explicit list of allowed values.
#[derive(Clone, Debug, PartialEq, Eq)]
pub enum AmountConfig {
    Range { min: Option<u64>, max: Option<u64> },
    Enum(Vec<u64>),
}

impl AmountConfig {
    /// What `validate` returns: `Ok` exactly when the value is inside the
    /// range, or one of the listed options.
    pub open spec fn spec_validate(self, value: u64) -> Result<(), PumpfunError> {
        match self {
            AmountConfig::Range { min, max } => {
                if min.is_some() && value < min.unwrap() {
                    Err(PumpfunError::ValueTooSmall)
                } else if max.is_some() && value > max.unwrap() {
                    Err(PumpfunError::ValueTooLarge)
                } else {
                    Ok(())
                }
            },
            AmountConfig::Enum(options) => {
                if options@.contains(value) {
                    Ok(())
                } else {
                    Err(PumpfunError::ValueInvalid)
                }
            },
        }
    }

    /// Checks a value against the policy: inside the bounds for `Range`,
    /// listed for `Enum`.
    pub fn validate(&self, value: u64) -> (r: Result<(), PumpfunError>)
        ensures
            r == self.spec_validate(value),
    {
        match self {
            AmountConfig::Range { min, max } => {
                if let Some(lo) = min {
                    if value < *lo {
                        return Err(PumpfunError::ValueTooSmall);
                    }
                }
                if let Some(hi) = max {
                    if value > *hi {
                        return Err(PumpfunError::ValueTooLarge);
                    }
                }
                Ok(())
            },
            AmountConfig::Enum(options) => {
                let n = options.len();
                let mut i: usize = 0;
                while i < n
                    invariant
                        *self == AmountConfig::Enum(*options),
                        n == options@.len(),
                        i <= n,
                        forall|k: int| 0 <= k < i ==> options@[k] != value,
                    decreases n - i,
                {
                    if options[i] == value {
                        assert(options@.contains(value)) by {
                            assert(options@[i as int] == value);
                        }
                        return Ok(());
                    }
                    i = i + 1;
                }
                assert(!options@.contains(value));
                Err(PumpfunError::ValueInvalid)
            },
        }
    }

    /// Whether every value the policy accepts has fewer than `MAX_DECIMALS`
    /// decimal places; used to gate the decimals policy of a new `Config`.
    pub open spec fn spec_bounded_below_max_decimals(self) -> bool {
        match self {
            AmountConfig::Range { min, max } => max.is_some() ==> max.unwrap() < MAX_DECIMALS,
            AmountConfig::Enum(options) => seq_all_below(options@, MAX_DECIMALS),
        }
    }

    /// Checks that the policy cannot admit a decimals value of `MAX_DECIMALS`
    /// or more, judging by the stated bounds alone: a `Range` without an
    /// upper bound is let through here, and `launch` still rejects each
    /// oversized decimals value on its own.
    pub fn bounded_below_max_decimals(&self) -> (r: bool)
        ensures
            r == self.spec_bounded_below_max_decimals(),
    {
        match self {
            AmountConfig::Range { min: _, max } => {
                if let Some(hi) = max {
                    *hi < MAX_DECIMALS
                } else {
                    true
                }
            },
            AmountConfig::Enum(options) => all_below(options, MAX_DECIMALS),
        }
    }
}

/// The global deployment configuration: who administers the platform, where
/// fees go, the fee rates, the launch-parameter policies, and whether curves
/// trade immediately after creation.
#[derive(Clone, Debug, PartialEq, Eq)]
pub struct Config {
    pub authority: Identity,
    /// Set by `nominate_authority`; promoted by `accept_authority`.
    pub pending_authority: Identity,
    pub team_wallet: Identity,
    /// Buy-side fee in basis points; never exceeds `FEE_BASIS_POINTS`.
    pub platform_buy_fee: u128,
    /// Sell-side fee in basis points; never exceeds `FEE_BASIS_POINTS`.
    pub platform_sell_fee: u128,
    pub lamport_amount_config: AmountConfig,
    pub token_supply_config: AmountConfig,
    pub token_decimals_config: AmountConfig,
    /// When false, a curve only trades 24 hours after its creation.
    pub is_instant_trading: bool,
}

impl Config {
    /// The configuration invariant: fee rates never exceed 100%.
    pub open spec fn wf(self) -> bool {
        self.platform_buy_fee <= FEE_BASIS_POINTS && self.platform_sell_fee <= FEE_BASIS_POINTS
    }
}

/// What `configure` returns, given the stored configuration (if one exists),
/// the caller, and the proposed new configuration.
pub open spec fn spec_configure(
    existing: Option<Config>,
    payer: Identity,
    new_config: Config,
) -> Result<Config, PumpfunError> {
    if !new_config.token_decimals_config.spec_bounded_below_max_decimals() {
        Err(PumpfunError::DecimalOverflow)
    } else if !new_config.wf() {
        Err(PumpfunError::ValueTooLarge)
    } else if existing.is_some() && existing.unwrap().authority != payer {
        Err(PumpfunError::IncorrectAuthority)
    } else if existing.is_some() && existing.unwrap().authority != new_config.authority {
        Err(PumpfunError::IncorrectAuthority)
    } else {
        Ok(new_config)
    }
}

/// Creates or replaces the deployment configuration.
///
/// The decimals policy must not admit `MAX_DECIMALS` or more, the fee rates
/// must not exceed 100%, and when a configuration already exists only its
/// current authority may replace it, without changing the authority field
/// (the two-step handover below is the only way to move it).
pub fn configure(existing: Option<&Config>, payer: Identity, new_config: Config) -> (r: Result<
    Config,
    PumpfunError,
>)
    ensures
        ({
            let prior = match existing {
                Some(c) => Some(*c),
                None => None,
            };
            r == spec_configure(prior, payer, new_config)
        }),
        r matches Ok(c) ==> c.wf(),
{
    if !new_config.token_decimals_config.bounded_below_max_decimals() {
        return Err(PumpfunError::DecimalOverflow);
    }
    if new_config.platform_buy_fee > FEE_BASIS_POINTS || new_config.platform_sell_fee
        > FEE_BASIS_POINTS {
        return Err(PumpfunError::ValueTooLarge);
    }
    if let Some(current) = existing {
        if current.authority != payer {
            return Err(PumpfunError::IncorrectAuthority);
        }
        if current.authority != new_config.authority {
            return Err(PumpfunError::IncorrectAuthority);
        }
    }
    Ok(new_config)
}

/// First half of the two-step authority handover: the current authority
/// names a successor. Nothing else changes.
pub fn nominate_authority(config: &mut Config, signer: Identity, new_admin: Identity) -> (r:
    Result<(), PumpfunError>)
    ensures
        signer == old(config).authority ==> r == Ok::<(), PumpfunError>(()) && *final(config) == (
        Config { pending_authority: new_admin, ..*old(config) }),
        signer != old(config).authority ==> r == Err::<(), PumpfunError>(
            PumpfunError::IncorrectAuthority,
        ) && *final(config) == *old(config),
{
    if signer != config.authority {
        return Err(PumpfunError::IncorrectAuthority);
    }
    config.pending_authority = new_admin;
    Ok(())
}

/// Second half of the handover: only the nominee may promote themselves,
/// which also clears the nomination.
pub fn accept_authority(config: &mut Config, signer: Identity) -> (r: Result<(), PumpfunError>)
    ensures
        signer == old(config).pending_authority ==> r == Ok::<(), PumpfunError>(())
            && *final(config) == (Config {
            authority: old(config).pending_authority,
            pending_authority: NO_IDENTITY,
            ..*old(config)
        }),
        signer != old(config).pending_authority ==> r == Err::<(), PumpfunError>(
            PumpfunError::IncorrectAuthority,
        ) && *final(config) == *old(config),
{
    if signer != config.pending_authority {
        return Err(PumpfunError::IncorrectAuthority);
    }
    config.authority = config.pending_authority;
    config.pending_authority = NO_IDENTITY;
    Ok(())
}

/// Lets curves trade immediately after creation. Authority only.
pub fn process_switch_to_instant_mode(config: &mut Config, signer: Identity) -> (r: Result<
    (),
    PumpfunError,
>)
    ensures
        signer == old(config).authority ==> r == Ok::<(), PumpfunError>(()) && *final(config) == (
        Config { is_instant_trading: true, ..*old(config) }),
        signer != old(config).authority ==> r == Err::<(), PumpfunError>(
            PumpfunError::IncorrectAuthority,
        ) && *final(config) == *old(config),
{
    if signer != config.authority {
        return Err(PumpfunError::IncorrectAuthority);
    }
    config.is_instant_trading = true;
    Ok(())
}

/// Makes new curves wait 24 hours before trading. Authority only.
pub fn process_switch_to_delay_mode(config: &mut Config, signer: Identity) -> (r: Result<
    (),
    PumpfunError,
>)
    ensures
        signer == old(config).authority ==> r == Ok::<(), PumpfunError>(()) && *final(config) == (
        Config { is_instant_trading: false, ..*old(config) }),
        signer != old(config).authority ==> r == Err::<(), PumpfunError>(
            PumpfunError::IncorrectAuthority,
        ) && *final(config) == *old(config),
{
    if signer != config.authority {
        return Err(PumpfunError::IncorrectAuthority);
    }
    config.is_instant_trading = false;
    Ok(())
}

} // verus!
