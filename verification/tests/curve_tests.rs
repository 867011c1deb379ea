use autofun::config::{AmountConfig, Config, NO_IDENTITY};
use autofun::curve::{
    launch, launch_and_swap, process_set_max_amounts, BondingCurve, SwapDirection, SwapResult,
};
use autofun::errors::PumpfunError;

fn config_with_fees(buy_fee: u128, sell_fee: u128) -> Config {
    Config {
        authority: 11,
        pending_authority: NO_IDENTITY,
        team_wallet: 22,
        platform_buy_fee: buy_fee,
        platform_sell_fee: sell_fee,
        lamport_amount_config: AmountConfig::Range { min: None, max: None },
        token_supply_config: AmountConfig::Range { min: None, max: None },
        token_decimals_config: AmountConfig::Range { min: None, max: Some(9) },
        is_instant_trading: true,
    }
}

fn curve(reserve_token: u64, reserve_lamport: u64, curve_limit: u64) -> BondingCurve {
    BondingCurve {
        token_mint: 1,
        creator: 2,
        created_time: 0,
        init_lamport: reserve_lamport,
        reserve_lamport,
        reserve_token,
        max_buy_amount: 0,
        max_sell_amount: 0,
        curve_limit,
        is_completed: false,
    }
}

#[test]
fn sell_follows_constant_product() {
    // x = 1000, y = 1000, sell fee 100 bps, dx = 100:
    // gross = floor(1000 * 100 / 1100) = 90, fee = floor(90 * 100 / 10000) = 0.
    let cfg = config_with_fees(100, 100);
    let mut c = curve(1000, 1000, 1_000_000);
    let r = c.swap(&cfg, 100, SwapDirection::Sell, 0, 10, 5);
    assert_eq!(
        r,
        Ok(SwapResult { amount_in: 100, amount_out: 90, fee: 0, completed: false })
    );
    assert_eq!(c.reserve_token, 1100);
    assert_eq!(c.reserve_lamport, 910);
    assert!(!c.is_completed);
}

#[test]
fn sell_fee_comes_out_of_gross_output() {
    // x = 1000, y = 100_000, sell fee 500 bps, dx = 1000:
    // gross = floor(100_000 * 1000 / 2000) = 50_000, fee = 2500, net = 47_500.
    let cfg = config_with_fees(0, 500);
    let mut c = curve(1000, 100_000, u64::MAX);
    let r = c.swap(&cfg, 1000, SwapDirection::Sell, 0, 10, 5);
    assert_eq!(
        r,
        Ok(SwapResult { amount_in: 1000, amount_out: 47_500, fee: 2500, completed: false })
    );
    assert_eq!(c.reserve_token, 2000);
    assert_eq!(c.reserve_lamport, 50_000);
}

#[test]
fn buy_fee_comes_out_of_input() {
    // buy fee 100 bps, dy = 10_000: fee = 100, net in = 9900,
    // out = floor(50_000 * 9900 / (10_000 + 9900)) = 24_874.
    let cfg = config_with_fees(100, 0);
    let mut c = curve(50_000, 10_000, 1_000_000);
    let r = c.swap(&cfg, 10_000, SwapDirection::Buy, 0, 10, 5);
    assert_eq!(
        r,
        Ok(SwapResult { amount_in: 10_000, amount_out: 24_874, fee: 100, completed: false })
    );
    assert_eq!(c.reserve_token, 50_000 - 24_874);
    assert_eq!(c.reserve_lamport, 10_000 + 9900);
}

#[test]
fn buy_near_limit_is_clamped_and_minimum_scales() {
    // Reserve 900 of a 1000 limit leaves room for 100; a buy of 200 is
    // clamped to 100 and the floor of 1000 scales by 100/200 to 500.
    let cfg = config_with_fees(0, 0);
    let mut c = curve(6000, 900, 1000);
    // out = floor(6000 * 100 / (900 + 100)) = 600, which clears the scaled
    // floor of 500 but not the unscaled 1000.
    let r = c.swap(&cfg, 200, SwapDirection::Buy, 1000, 10, 5);
    assert_eq!(
        r,
        Ok(SwapResult { amount_in: 100, amount_out: 600, fee: 0, completed: true })
    );
    assert_eq!(c.reserve_token, 5400);
    assert_eq!(c.reserve_lamport, 1000);
    assert!(c.is_completed);
}

#[test]
fn scaled_minimum_still_protects_against_slippage() {
    // Same clamp, but a floor of 1300 scales to 650 > 600: the swap fails
    // and nothing changes.
    let cfg = config_with_fees(0, 0);
    let mut c = curve(6000, 900, 1000);
    let before = c;
    let r = c.swap(&cfg, 200, SwapDirection::Buy, 1300, 10, 5);
    assert_eq!(r, Err(PumpfunError::ReturnAmountTooSmall));
    assert_eq!(c, before);
}

#[test]
fn completed_curve_rejects_all_swaps() {
    let cfg = config_with_fees(100, 100);
    let mut c = curve(1000, 1000, 1_000_000);
    c.is_completed = true;
    let before = c;
    assert_eq!(
        c.swap(&cfg, 100, SwapDirection::Buy, 0, 10, 5),
        Err(PumpfunError::CurveAlreadyCompleted)
    );
    assert_eq!(
        c.swap(&cfg, 100, SwapDirection::Sell, 0, 10, 5),
        Err(PumpfunError::CurveAlreadyCompleted)
    );
    assert_eq!(c, before);
}

#[test]
fn completion_is_permanent_across_operations() {
    // Drive a curve to completion, then check that later requests keep
    // failing and the flag stays raised.
    let cfg = config_with_fees(0, 0);
    let mut c = curve(6000, 900, 1000);
    c.swap(&cfg, 100, SwapDirection::Buy, 0, 10, 5).unwrap();
    assert!(c.is_completed);
    assert_eq!(
        c.swap(&cfg, 1, SwapDirection::Sell, 0, 10, 6),
        Err(PumpfunError::CurveAlreadyCompleted)
    );
    assert!(c.is_completed);
}

#[test]
fn expired_deadline_is_rejected_first() {
    let cfg = config_with_fees(100, 100);
    let mut c = curve(1000, 1000, 1_000_000);
    c.is_completed = true;
    // Expiry outranks even the completed state.
    assert_eq!(
        c.swap(&cfg, 100, SwapDirection::Sell, 0, 10, 11),
        Err(PumpfunError::TransactionExpired)
    );
}

#[test]
fn delayed_trading_window_gates_swaps() {
    let mut cfg = config_with_fees(100, 100);
    cfg.is_instant_trading = false;
    let mut c = curve(1000, 1000, 1_000_000);
    let before = c;
    assert_eq!(
        c.swap(&cfg, 100, SwapDirection::Sell, 0, 100_000, 86_399),
        Err(PumpfunError::TradeTooEarly)
    );
    assert_eq!(c, before);
    // From 24 hours on, the same request goes through.
    assert!(c.swap(&cfg, 100, SwapDirection::Sell, 0, 100_000, 86_400).is_ok());
}

#[test]
fn zero_amount_is_rejected() {
    let cfg = config_with_fees(100, 100);
    let mut c = curve(1000, 1000, 1_000_000);
    assert_eq!(
        c.swap(&cfg, 0, SwapDirection::Buy, 0, 10, 5),
        Err(PumpfunError::InvalidAmount)
    );
}

#[test]
fn caps_gate_each_direction() {
    let cfg = config_with_fees(0, 0);
    let mut c = curve(10_000, 10_000, 1_000_000);
    c.max_buy_amount = 50;
    c.max_sell_amount = 70;
    assert_eq!(
        c.swap(&cfg, 50, SwapDirection::Buy, 0, 10, 5),
        Err(PumpfunError::ExceedsMaxBuyAmount)
    );
    assert_eq!(
        c.swap(&cfg, 70, SwapDirection::Sell, 0, 10, 5),
        Err(PumpfunError::ExceedsMaxSellAmount)
    );
    // Strictly below the cap trades fine.
    assert!(c.swap(&cfg, 49, SwapDirection::Buy, 0, 10, 5).is_ok());
}

#[test]
fn zero_cap_means_no_cap() {
    let cfg = config_with_fees(0, 0);
    let mut c = curve(1_000_000, 1_000_000, u64::MAX);
    assert!(c.swap(&cfg, 500_000, SwapDirection::Buy, 0, 10, 5).is_ok());
}

#[test]
fn empty_pool_quotes_zero() {
    let cfg = config_with_fees(100, 100);
    let c = curve(0, 1000, 1_000_000);
    assert_eq!(c.cal_amount_out(100, SwapDirection::Sell, 100, 100), Ok((0, 0)));
    assert_eq!(c.cal_amount_out(100, SwapDirection::Buy, 100, 100), Ok((0, 0)));
    let c2 = curve(1000, 0, 1_000_000);
    assert_eq!(c2.cal_amount_out(100, SwapDirection::Buy, 100, 100), Ok((0, 0)));
    let _ = cfg;
}

#[test]
fn sell_overflowing_token_reserve_fails_atomically() {
    let cfg = config_with_fees(0, 0);
    let mut c = curve(u64::MAX, 1000, u64::MAX);
    let before = c;
    assert_eq!(
        c.swap(&cfg, 1, SwapDirection::Sell, 0, 10, 5),
        Err(PumpfunError::OverflowOrUnderflowOccurred)
    );
    assert_eq!(c, before);
}

#[test]
fn launch_splits_the_supply() {
    let cfg = config_with_fees(100, 100);
    let r = launch(&cfg, 7, 3, 6, 1_000_000, 5000, 80_000, 80, 42);
    let (c, to_team) = r.unwrap();
    assert_eq!(c.reserve_token, 800_000);
    assert_eq!(to_team, 200_000);
    assert_eq!(c.reserve_lamport, 5000);
    assert_eq!(c.init_lamport, 5000);
    assert_eq!(c.curve_limit, 80_000);
    assert_eq!(c.token_mint, 7);
    assert_eq!(c.creator, 3);
    assert_eq!(c.created_time, 42);
    assert_eq!(c.max_buy_amount, 0);
    assert_eq!(c.max_sell_amount, 0);
    assert!(!c.is_completed);
}

#[test]
fn launch_rejects_twenty_decimals() {
    let cfg = config_with_fees(100, 100);
    assert_eq!(
        launch(&cfg, 7, 3, 20, 1_000_000, 5000, 80_000, 80, 42),
        Err(PumpfunError::DecimalOverflow)
    );
}

#[test]
fn launch_rejects_fractional_supply() {
    // With 6 decimals the supply must be a multiple of 10^6.
    let cfg = config_with_fees(100, 100);
    assert_eq!(
        launch(&cfg, 7, 3, 6, 1_500_000_500_000, 5000, 80_000, 80, 42),
        Err(PumpfunError::ValueInvalid)
    );
    assert!(launch(&cfg, 7, 3, 6, 1_500_000_000_000, 5000, 80_000, 80, 42).is_ok());
}

#[test]
fn launch_applies_the_configured_policies() {
    let mut cfg = config_with_fees(100, 100);
    cfg.lamport_amount_config = AmountConfig::Range { min: Some(1000), max: Some(10_000) };
    cfg.token_supply_config = AmountConfig::Enum(vec![1_000_000, 2_000_000]);
    cfg.token_decimals_config = AmountConfig::Enum(vec![6, 9]);

    // Reserve below the range.
    assert_eq!(
        launch(&cfg, 7, 3, 6, 1_000_000_000_000, 999, 80_000, 80, 42),
        Err(PumpfunError::ValueTooSmall)
    );
    // Reserve above the range.
    assert_eq!(
        launch(&cfg, 7, 3, 6, 1_000_000_000_000, 10_001, 80_000, 80, 42),
        Err(PumpfunError::ValueTooLarge)
    );
    // Whole-token supply not among the options.
    assert_eq!(
        launch(&cfg, 7, 3, 6, 3_000_000_000_000, 5000, 80_000, 80, 42),
        Err(PumpfunError::ValueInvalid)
    );
    // Decimals not among the options.
    assert_eq!(
        launch(&cfg, 7, 3, 7, 1_000_000_0000_000, 5000, 80_000, 80, 42),
        Err(PumpfunError::ValueInvalid)
    );
    // Everything inside the policies.
    assert!(launch(&cfg, 7, 3, 6, 1_000_000_000_000, 5000, 80_000, 80, 42).is_ok());
}

#[test]
fn launch_and_swap_buys_on_the_fresh_curve() {
    let cfg = config_with_fees(0, 0);
    // Launch seeds the curve with half of 10^12 tokens against 10_000 of
    // reserve; the initial buy of 1000 yields
    // floor(5*10^11 * 1000 / 11_000) = 45_454_545_454 tokens.
    let r = launch_and_swap(&cfg, 7, 3, 6, 1_000_000_000_000, 10_000, 1_000_000, 50, 1000, 0, 10, 5);
    let (c, to_team, s) = r.unwrap();
    assert_eq!(to_team, 500_000_000_000);
    assert_eq!(
        s,
        SwapResult { amount_in: 1000, amount_out: 45_454_545_454, fee: 0, completed: false }
    );
    assert_eq!(c.reserve_token, 500_000_000_000 - 45_454_545_454);
    assert_eq!(c.reserve_lamport, 11_000);
}

#[test]
fn launch_and_swap_fails_whole_in_delay_mode() {
    // Without instant trading the fresh curve cannot trade yet, so the
    // combined operation returns nothing at all.
    let mut cfg = config_with_fees(0, 0);
    cfg.is_instant_trading = false;
    let r = launch_and_swap(&cfg, 7, 3, 6, 1_000_000_000_000, 10_000, 1_000_000, 50, 1000, 0, 10, 5);
    assert_eq!(r, Err(PumpfunError::TradeTooEarly));
}

#[test]
fn set_max_amounts_is_creator_only_within_window() {
    let mut c = curve(1000, 1000, 1_000_000);
    let before = c;
    assert_eq!(
        process_set_max_amounts(&mut c, 999, 10, 20, 100),
        Err(PumpfunError::IncorrectAuthority)
    );
    assert_eq!(c, before);

    // Past the 8-hour window.
    assert_eq!(
        process_set_max_amounts(&mut c, 2, 10, 20, 28_801),
        Err(PumpfunError::OverSetTime)
    );
    assert_eq!(c, before);

    // The creator, inside the window.
    assert_eq!(process_set_max_amounts(&mut c, 2, 10, 20, 28_800), Ok(()));
    assert_eq!(c.max_buy_amount, 10);
    assert_eq!(c.max_sell_amount, 20);
}
