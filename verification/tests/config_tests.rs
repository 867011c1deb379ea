use autofun::config::{
    accept_authority, configure, nominate_authority, process_switch_to_delay_mode,
    process_switch_to_instant_mode, AmountConfig, Config, NO_IDENTITY,
};
use autofun::errors::PumpfunError;

fn open_config() -> Config {
    Config {
        authority: 11,
        pending_authority: NO_IDENTITY,
        team_wallet: 22,
        platform_buy_fee: 100,
        platform_sell_fee: 100,
        lamport_amount_config: AmountConfig::Range { min: None, max: None },
        token_supply_config: AmountConfig::Range { min: None, max: None },
        token_decimals_config: AmountConfig::Range { min: None, max: Some(9) },
        is_instant_trading: true,
    }
}

#[test]
fn validate_range_accepts_inside() {
    let policy = AmountConfig::Range { min: Some(10), max: Some(100) };
    assert_eq!(policy.validate(10), Ok(()));
    assert_eq!(policy.validate(55), Ok(()));
    assert_eq!(policy.validate(100), Ok(()));
}

#[test]
fn validate_range_rejects_outside() {
    let policy = AmountConfig::Range { min: Some(10), max: Some(100) };
    assert_eq!(policy.validate(9), Err(PumpfunError::ValueTooSmall));
    assert_eq!(policy.validate(101), Err(PumpfunError::ValueTooLarge));
}

#[test]
fn validate_range_without_bounds_accepts_everything() {
    let policy = AmountConfig::Range { min: None, max: None };
    assert_eq!(policy.validate(0), Ok(()));
    assert_eq!(policy.validate(u64::MAX), Ok(()));
}

#[test]
fn validate_enum_accepts_listed_only() {
    let policy = AmountConfig::Enum(vec![6, 9]);
    assert_eq!(policy.validate(6), Ok(()));
    assert_eq!(policy.validate(9), Ok(()));
    assert_eq!(policy.validate(7), Err(PumpfunError::ValueInvalid));
}

#[test]
fn validate_enum_empty_rejects_everything() {
    let policy = AmountConfig::Enum(vec![]);
    assert_eq!(policy.validate(0), Err(PumpfunError::ValueInvalid));
}

#[test]
fn configure_creates_fresh_config() {
    let cfg = open_config();
    assert_eq!(configure(None, 999, cfg.clone()), Ok(cfg));
}

#[test]
fn configure_rejects_decimals_policy_reaching_twenty() {
    let mut cfg = open_config();
    cfg.token_decimals_config = AmountConfig::Range { min: None, max: Some(20) };
    assert_eq!(configure(None, 11, cfg), Err(PumpfunError::DecimalOverflow));

    let mut cfg = open_config();
    cfg.token_decimals_config = AmountConfig::Enum(vec![6, 25]);
    assert_eq!(configure(None, 11, cfg), Err(PumpfunError::DecimalOverflow));
}

#[test]
fn configure_rejects_fee_over_hundred_percent() {
    let mut cfg = open_config();
    cfg.platform_sell_fee = 10001;
    assert_eq!(configure(None, 11, cfg), Err(PumpfunError::ValueTooLarge));
}

#[test]
fn configure_replacement_needs_current_authority() {
    let current = open_config();
    let mut update = open_config();
    update.platform_buy_fee = 250;
    assert_eq!(
        configure(Some(&current), 999, update.clone()),
        Err(PumpfunError::IncorrectAuthority)
    );
    assert_eq!(configure(Some(&current), 11, update.clone()), Ok(update));
}

#[test]
fn configure_cannot_change_authority_directly() {
    let current = open_config();
    let mut update = open_config();
    update.authority = 999;
    assert_eq!(
        configure(Some(&current), 11, update),
        Err(PumpfunError::IncorrectAuthority)
    );
}

#[test]
fn authority_handover_takes_two_steps() {
    let mut cfg = open_config();
    assert_eq!(nominate_authority(&mut cfg, 11, 33), Ok(()));
    assert_eq!(cfg.pending_authority, 33);
    assert_eq!(cfg.authority, 11);

    assert_eq!(accept_authority(&mut cfg, 33), Ok(()));
    assert_eq!(cfg.authority, 33);
    assert_eq!(cfg.pending_authority, NO_IDENTITY);
}

#[test]
fn nominate_requires_current_authority() {
    let mut cfg = open_config();
    assert_eq!(
        nominate_authority(&mut cfg, 999, 33),
        Err(PumpfunError::IncorrectAuthority)
    );
    assert_eq!(cfg, open_config());
}

#[test]
fn accept_requires_the_nominee() {
    let mut cfg = open_config();
    nominate_authority(&mut cfg, 11, 33).unwrap();
    assert_eq!(
        accept_authority(&mut cfg, 44),
        Err(PumpfunError::IncorrectAuthority)
    );
    assert_eq!(cfg.authority, 11);
    assert_eq!(cfg.pending_authority, 33);
}

#[test]
fn switch_modes_flips_the_flag() {
    let mut cfg = open_config();
    assert_eq!(process_switch_to_delay_mode(&mut cfg, 11), Ok(()));
    assert!(!cfg.is_instant_trading);
    assert_eq!(process_switch_to_instant_mode(&mut cfg, 11), Ok(()));
    assert!(cfg.is_instant_trading);
}

#[test]
fn switch_modes_requires_authority() {
    let mut cfg = open_config();
    assert_eq!(
        process_switch_to_delay_mode(&mut cfg, 999),
        Err(PumpfunError::IncorrectAuthority)
    );
    assert!(cfg.is_instant_trading);
    cfg.is_instant_trading = false;
    assert_eq!(
        process_switch_to_instant_mode(&mut cfg, 999),
        Err(PumpfunError::IncorrectAuthority)
    );
    assert!(!cfg.is_instant_trading);
}
