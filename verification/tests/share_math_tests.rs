use solvault::errors::VaultError;
use solvault::share_math::{calculate_shares_for_deposit, calculate_withdrawal_amount, mul_div};

#[test]
fn bootstrap_deposit_mints_one_share_per_lamport() {
    // empty pool: amount * SHARES_PER_SOL / LAMPORTS_PER_SOL == amount
    assert_eq!(calculate_shares_for_deposit(1_000_000_000, 0, 0), Ok(1_000_000_000));
    assert_eq!(calculate_shares_for_deposit(10_000_000, 0, 0), Ok(10_000_000));
    assert_eq!(calculate_shares_for_deposit(u64::MAX, 0, 0), Ok(u64::MAX));
}

#[test]
fn proportional_deposit_rounds_down() {
    // 1_000_000 * 1_000_000 / 3_000_000 == 333_333 (truncated)
    assert_eq!(calculate_shares_for_deposit(1_000_000, 3_000_000, 1_000_000), Ok(333_333));
    // exact division loses nothing
    assert_eq!(calculate_shares_for_deposit(500_000_000, 1_000_000_000, 1_000_000_000), Ok(500_000_000));
}

#[test]
fn deposit_share_calculation_overflows() {
    // amount * total_shares / total_deposited exceeds u64
    assert_eq!(
        calculate_shares_for_deposit(u64::MAX, 1, u64::MAX),
        Err(VaultError::MathOverflow)
    );
}

#[test]
fn withdrawal_amount_is_proportional_and_truncated() {
    // 1 * 10 / 3 == 3
    assert_eq!(calculate_withdrawal_amount(1, 10, 3), Ok(3));
    // burning all shares drains the pool exactly
    assert_eq!(calculate_withdrawal_amount(777, 123_456_789, 777), Ok(123_456_789));
}

#[test]
fn withdrawal_amount_overflows() {
    assert_eq!(calculate_withdrawal_amount(u64::MAX, u64::MAX, 2), Err(VaultError::MathOverflow));
}

#[test]
fn deposit_into_backed_pool_never_beats_bootstrap_rate() {
    // bootstrap: one share per lamport
    let bootstrap = calculate_shares_for_deposit(1_000_000_000, 0, 0).unwrap();
    assert_eq!(bootstrap, 1_000_000_000);
    // a pool holding yield (more backing than shares) pays strictly less
    let with_yield = calculate_shares_for_deposit(1_000_000_000, 2_000_000_000, 1_000_000_000).unwrap();
    assert_eq!(with_yield, 500_000_000);
    assert!(with_yield <= bootstrap);
    // a fully backed pool at par pays exactly the bootstrap rate
    let at_par = calculate_shares_for_deposit(1_000_000_000, 1_500_000_000, 1_500_000_000).unwrap();
    assert_eq!(at_par, 1_000_000_000);
}

#[test]
fn error_messages_name_the_rejection() {
    assert_eq!(VaultError::VaultPaused.message(), "the vault is currently paused");
    assert_eq!(VaultError::MathOverflow.message(), "arithmetic overflow");
}

#[test]
fn mul_div_truncates_and_rejects_overflow() {
    assert_eq!(mul_div(7, 3, 2), Ok(10));
    assert_eq!(mul_div(u64::MAX, 2, 1), Err(VaultError::MathOverflow));
    assert_eq!(mul_div(u64::MAX, 2, 2), Ok(u64::MAX));
    assert_eq!(mul_div(0, u64::MAX, 5), Ok(0));
}
