use solana_swap_dex::errors::SwapDexError;
use solana_swap_dex::events::VaultKind;
use solana_swap_dex::instructions::initialize_user::{self, InitializeUser};
use solana_swap_dex::instructions::update_profile::{self, UpdateProfile, UpdateProfileParams};
use solana_swap_dex::instructions::{
    deposit_fee, deposit_sol, deposit_usdc, withdraw_fee, withdraw_sol, withdraw_usdc,
};
use solana_swap_dex::state::{Pubkey, UserProfile};

const NOW: i64 = 1_700_000_000;

fn key(n: u8) -> Pubkey {
    Pubkey::new([n; 32])
}

fn fresh() -> UserProfile {
    initialize_user::handler(&InitializeUser { user: key(1) }, 254, NOW).0
}

fn no_patch() -> UpdateProfileParams {
    UpdateProfileParams {
        enabled: None,
        trade_size_sol: None,
        trade_size_usdc: None,
        min_fee_pool: None,
        target_fee_pool: None,
        max_slippage_bps: None,
        protocol_fee_bps: None,
        relayer_refund_lamports: None,
        keeper_allowlist: None,
        daily_limit: None,
    }
}

#[test]
fn initialization_defaults() {
    let (p, event) = initialize_user::handler(&InitializeUser { user: key(1) }, 254, NOW);
    assert_eq!(p.owner, key(1));
    assert!(p.enabled);
    assert_eq!(p.trade_size_sol, 2_500_000_000);
    assert_eq!(p.trade_size_usdc, 500_000_000);
    assert_eq!(p.min_fee_pool, 50_000_000);
    assert_eq!(p.target_fee_pool, 150_000_000);
    assert_eq!(p.max_slippage_bps, 50);
    assert_eq!(p.protocol_fee_bps, 10);
    assert_eq!(p.relayer_refund_lamports, 5_000);
    assert_eq!(p.keeper_count, 0);
    assert!(p.keeper_allowlist.iter().all(|k| *k == Pubkey::zeroed()));
    assert_eq!(p.daily_limit, 10);
    assert_eq!(p.executions_today, 0);
    assert_eq!(p.last_execution_day, 0);
    assert_eq!(p.last_execution, 0);
    assert_eq!(p.nonce, 0);
    assert_eq!(p.bump, 254);
    assert_eq!(event.user, key(1));
    assert_eq!(event.vault_type, VaultKind::Initialization);
    assert_eq!(event.vault_type.label(), "initialization");
    assert_eq!(event.amount, 0);
    assert_eq!(event.timestamp, NOW);
}

#[test]
fn record_size() {
    assert_eq!(UserProfile::LEN, 275);
}

#[test]
fn patch_changes_only_given_fields() {
    let mut up = UpdateProfile { user: key(1), profile: fresh() };
    let mut patch = no_patch();
    patch.enabled = Some(false);
    patch.daily_limit = Some(3);
    patch.relayer_refund_lamports = Some(7);
    assert_eq!(update_profile::handler(&mut up, patch), Ok(()));
    assert!(!up.profile.enabled);
    assert_eq!(up.profile.daily_limit, 3);
    assert_eq!(up.profile.relayer_refund_lamports, 7);
    assert_eq!(up.profile.trade_size_sol, 2_500_000_000);
    assert_eq!(up.profile.protocol_fee_bps, 10);
    assert_eq!(up.profile.keeper_count, 0);
}

#[test]
fn allowlist_is_cut_to_capacity() {
    let mut up = UpdateProfile { user: key(1), profile: fresh() };
    let mut patch = no_patch();
    patch.keeper_allowlist = Some((10..17).map(key).collect());
    update_profile::handler(&mut up, patch).unwrap();
    assert_eq!(up.profile.keeper_count, 5);
    for i in 0..5 {
        assert_eq!(up.profile.keeper_allowlist[i], key(10 + i as u8));
    }
    assert!(up.profile.is_keeper_authorized(&key(14)));
    assert!(!up.profile.is_keeper_authorized(&key(15)));

    let mut patch = no_patch();
    patch.keeper_allowlist = Some(vec![key(20)]);
    update_profile::handler(&mut up, patch).unwrap();
    assert_eq!(up.profile.keeper_count, 1);
    assert_eq!(up.profile.keeper_allowlist[0], key(20));
    assert_eq!(up.profile.keeper_allowlist[1], Pubkey::zeroed());
    assert!(!up.profile.is_keeper_authorized(&key(11)));
}

#[test]
fn only_owner_may_update() {
    let mut up = UpdateProfile { user: key(2), profile: fresh() };
    let mut patch = no_patch();
    patch.enabled = Some(false);
    assert_eq!(update_profile::handler(&mut up, patch), Err(SwapDexError::UnauthorizedKeeper));
    assert!(up.profile.enabled);
}

#[test]
fn deposits_credit_each_vault() {
    let mut s = deposit_sol::DepositSol { user: key(1), profile: fresh(), sol_vault: 5 };
    let e = deposit_sol::handler(&mut s, 10, NOW).unwrap();
    assert_eq!(s.sol_vault, 15);
    assert_eq!((e.vault_type, e.amount, e.timestamp), (VaultKind::Sol, 10, NOW));

    let mut u = deposit_usdc::DepositUsdc { user: key(1), profile: fresh(), usdc_vault: 0 };
    let e = deposit_usdc::handler(&mut u, 42, NOW).unwrap();
    assert_eq!(u.usdc_vault, 42);
    assert_eq!(e.vault_type.label(), "usdc");

    let mut f = deposit_fee::DepositFee { user: key(1), profile: fresh(), fee_pool: 1 };
    let e = deposit_fee::handler(&mut f, 99, NOW).unwrap();
    assert_eq!(f.fee_pool, 100);
    assert_eq!(e.vault_type.label(), "fee");
}

#[test]
fn zero_deposit_is_refused() {
    let mut f = deposit_fee::DepositFee { user: key(1), profile: fresh(), fee_pool: 1 };
    assert_eq!(deposit_fee::handler(&mut f, 0, NOW), Err(SwapDexError::InsufficientBalance));
    assert_eq!(f.fee_pool, 1);
}

#[test]
fn deposit_by_stranger_is_refused() {
    let mut u = deposit_usdc::DepositUsdc { user: key(3), profile: fresh(), usdc_vault: 0 };
    assert_eq!(deposit_usdc::handler(&mut u, 5, NOW), Err(SwapDexError::UnauthorizedKeeper));
    assert_eq!(u.usdc_vault, 0);
}

#[test]
fn deposit_past_capacity_overflows() {
    let mut s = deposit_sol::DepositSol { user: key(1), profile: fresh(), sol_vault: u64::MAX };
    assert_eq!(deposit_sol::handler(&mut s, 1, NOW), Err(SwapDexError::ArithmeticOverflow));
    assert_eq!(s.sol_vault, u64::MAX);
}

#[test]
fn token_withdrawals() {
    let mut s = withdraw_sol::WithdrawSol { user: key(1), profile: fresh(), sol_vault: 100 };
    assert_eq!(withdraw_sol::handler(&mut s, 101, NOW), Err(SwapDexError::InsufficientBalance));
    assert_eq!(withdraw_sol::handler(&mut s, 0, NOW), Err(SwapDexError::InsufficientBalance));
    let e = withdraw_sol::handler(&mut s, 100, NOW).unwrap();
    assert_eq!(s.sol_vault, 0);
    assert_eq!((e.vault_type, e.amount), (VaultKind::Sol, 100));

    let mut u = withdraw_usdc::WithdrawUsdc { user: key(1), profile: fresh(), usdc_vault: 50 };
    let e = withdraw_usdc::handler(&mut u, 20, NOW).unwrap();
    assert_eq!(u.usdc_vault, 30);
    assert_eq!(e.vault_type.label(), "usdc");
    let mut u = withdraw_usdc::WithdrawUsdc { user: key(2), profile: fresh(), usdc_vault: 50 };
    assert_eq!(withdraw_usdc::handler(&mut u, 20, NOW), Err(SwapDexError::UnauthorizedKeeper));
}

#[test]
fn fee_pool_keeps_its_reserve() {
    let reserve = 890_880;
    let mut f = withdraw_fee::WithdrawFee { user: key(1), profile: fresh(), fee_pool: reserve };
    for amount in [1u64, 2, 1_000, u64::MAX] {
        assert_eq!(
            withdraw_fee::handler(&mut f, amount, NOW, reserve),
            Err(SwapDexError::InsufficientFeePool)
        );
    }
    assert_eq!(f.fee_pool, reserve);
    f.fee_pool = reserve + 1;
    let e = withdraw_fee::handler(&mut f, 1, NOW, reserve).unwrap();
    assert_eq!(f.fee_pool, reserve);
    assert_eq!((e.vault_type, e.amount, e.user), (VaultKind::Fee, 1, key(1)));
}

#[test]
fn fee_pool_below_reserve_refuses() {
    let mut f = withdraw_fee::WithdrawFee { user: key(1), profile: fresh(), fee_pool: 10 };
    assert_eq!(withdraw_fee::handler(&mut f, 1, NOW, 20), Err(SwapDexError::InsufficientFeePool));
    assert_eq!(withdraw_fee::handler(&mut f, 0, NOW, 20), Err(SwapDexError::InsufficientBalance));
}
