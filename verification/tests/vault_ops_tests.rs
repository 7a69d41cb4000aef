use solvault::errors::VaultError;
use solvault::ops::{deposit, initialize, withdraw};
use solvault::state::{Allocation, UserPosition, Vault, NO_AUTHORITY};

fn two_way_allocations() -> Vec<Allocation> {
    vec![
        Allocation { protocol_id: 0, target_pct: 60, current_amount: 0 },
        Allocation { protocol_id: 1, target_pct: 40, current_amount: 0 },
    ]
}

fn fresh_vault(fee_bps: u16, cap: u64) -> Vault {
    initialize(1, fee_bps, cap, two_way_allocations(), 100).unwrap()
}

fn fresh_position(owner: u64) -> UserPosition {
    UserPosition { owner, shares: 0, deposited_amount: 0, last_deposit_ts: 0 }
}

#[test]
fn scenario_two_depositors_then_withdraw_with_yield() {
    let mut vault = fresh_vault(500, 0);
    assert_eq!(vault.total_deposited, 0);
    assert_eq!(vault.depositor_count, 0);

    // first deposit mints at the bootstrap ratio
    let mut pos_a = fresh_position(11);
    let ev = deposit(&mut vault, &mut pos_a, 11, 1_000_000_000, 200).unwrap();
    assert_eq!(ev.shares_minted, 1_000_000_000);
    assert_eq!(ev.total_deposited, 1_000_000_000);
    assert_eq!(vault.total_deposited, 1_000_000_000);
    assert_eq!(vault.total_shares, 1_000_000_000);
    assert_eq!(vault.depositor_count, 1);
    assert_eq!(pos_a.shares, 1_000_000_000);
    assert_eq!(pos_a.deposited_amount, 1_000_000_000);
    assert_eq!(pos_a.last_deposit_ts, 200);

    // second depositor gets shares at the current ratio
    let mut pos_b = fresh_position(12);
    let ev = deposit(&mut vault, &mut pos_b, 12, 500_000_000, 300).unwrap();
    assert_eq!(ev.shares_minted, 500_000_000);
    assert_eq!(vault.total_deposited, 1_500_000_000);
    assert_eq!(vault.total_shares, 1_500_000_000);
    assert_eq!(vault.depositor_count, 2);

    // downstream yield credited by the custody layer: 300_000_000 lamports
    vault.total_deposited = 1_800_000_000;

    // first depositor burns half their shares; fee is charged on the yield
    // portion only
    let ev = withdraw(&mut vault, &mut pos_a, 11, 500_000_000, 10_000_000_000, 1_000_000).unwrap();
    // gross = 500e6 * 1.8e9 / 1.5e9 = 600_000_000; basis = 500_000_000
    // yield = 100_000_000; fee = 5% = 5_000_000; net = 595_000_000
    assert_eq!(ev.amount_returned, 595_000_000);
    assert_eq!(ev.fee_charged, 5_000_000);
    assert_eq!(ev.shares_burned, 500_000_000);
    assert_eq!(vault.total_deposited, 1_200_000_000);
    assert_eq!(vault.total_shares, 1_000_000_000);
    assert_eq!(vault.accrued_fees, 5_000_000);
    assert_eq!(vault.depositor_count, 2);
    assert_eq!(pos_a.shares, 500_000_000);
    assert_eq!(pos_a.deposited_amount, 500_000_000);
}

#[test]
fn round_trip_returns_deposit_with_zero_fee() {
    let mut vault = fresh_vault(500, 0);
    let mut pos = fresh_position(7);
    deposit(&mut vault, &mut pos, 7, 1_000_000_000, 50).unwrap();
    let ev = withdraw(&mut vault, &mut pos, 7, 1_000_000_000, 2_000_000_000, 0).unwrap();
    assert_eq!(ev.amount_returned, 1_000_000_000);
    assert_eq!(ev.fee_charged, 0);
    // the pool ends empty: shares and backing vanish together
    assert_eq!(vault.total_shares, 0);
    assert_eq!(vault.total_deposited, 0);
    assert_eq!(vault.depositor_count, 0);
    assert_eq!(pos.shares, 0);
    assert_eq!(pos.deposited_amount, 0);
}

#[test]
fn deposit_rejected_when_paused() {
    let mut vault = fresh_vault(0, 0);
    vault.is_paused = true;
    let mut pos = fresh_position(5);
    assert_eq!(deposit(&mut vault, &mut pos, 5, 10_000_000, 1).unwrap_err(), VaultError::VaultPaused);
    assert_eq!(vault.total_deposited, 0);
    assert_eq!(pos.shares, 0);
}

#[test]
fn deposit_below_minimum_rejected() {
    let mut vault = fresh_vault(0, 0);
    let mut pos = fresh_position(5);
    assert_eq!(
        deposit(&mut vault, &mut pos, 5, 9_999_999, 1).unwrap_err(),
        VaultError::BelowMinimumDeposit
    );
}

#[test]
fn deposit_to_exact_cap_succeeds_one_more_unit_fails() {
    let mut vault = fresh_vault(0, 1_000_000_000);
    let mut pos = fresh_position(5);
    // reaches the cap exactly
    deposit(&mut vault, &mut pos, 5, 1_000_000_000, 1).unwrap();
    assert_eq!(vault.total_deposited, 1_000_000_000);

    let mut vault = fresh_vault(0, 999_999_999);
    let mut pos = fresh_position(5);
    // one unit beyond the cap
    assert_eq!(
        deposit(&mut vault, &mut pos, 5, 1_000_000_000, 1).unwrap_err(),
        VaultError::DepositCapExceeded
    );
    assert_eq!(vault.total_deposited, 0);
}

#[test]
fn deposit_overflow_at_cap_check() {
    let mut vault = fresh_vault(0, 5);
    vault.total_deposited = u64::MAX;
    vault.total_shares = u64::MAX;
    let mut pos = fresh_position(5);
    assert_eq!(
        deposit(&mut vault, &mut pos, 5, 10_000_000, 1).unwrap_err(),
        VaultError::MathOverflow
    );
}

#[test]
fn deposit_returning_depositor_not_recounted() {
    let mut vault = fresh_vault(0, 0);
    let mut pos = fresh_position(5);
    deposit(&mut vault, &mut pos, 5, 10_000_000, 1).unwrap();
    assert_eq!(vault.depositor_count, 1);
    deposit(&mut vault, &mut pos, 5, 10_000_000, 2).unwrap();
    // the position already held shares, so the count is unchanged
    assert_eq!(vault.depositor_count, 1);
    assert_eq!(pos.shares, 20_000_000);
    assert_eq!(pos.deposited_amount, 20_000_000);
}

#[test]
fn withdraw_requires_position_owner() {
    let mut vault = fresh_vault(0, 0);
    let mut pos = fresh_position(5);
    deposit(&mut vault, &mut pos, 5, 10_000_000, 1).unwrap();
    assert_eq!(
        withdraw(&mut vault, &mut pos, 6, 1, 1_000_000_000, 0).unwrap_err(),
        VaultError::Unauthorized
    );
}

#[test]
fn withdraw_rejected_when_paused() {
    let mut vault = fresh_vault(0, 0);
    let mut pos = fresh_position(5);
    deposit(&mut vault, &mut pos, 5, 10_000_000, 1).unwrap();
    vault.is_paused = true;
    assert_eq!(
        withdraw(&mut vault, &mut pos, 5, 1, 1_000_000_000, 0).unwrap_err(),
        VaultError::VaultPaused
    );
}

#[test]
fn withdraw_zero_shares_rejected() {
    let mut vault = fresh_vault(0, 0);
    let mut pos = fresh_position(5);
    deposit(&mut vault, &mut pos, 5, 10_000_000, 1).unwrap();
    assert_eq!(
        withdraw(&mut vault, &mut pos, 5, 0, 1_000_000_000, 0).unwrap_err(),
        VaultError::ZeroAmount
    );
}

#[test]
fn withdraw_more_than_held_rejected() {
    let mut vault = fresh_vault(0, 0);
    let mut pos = fresh_position(5);
    deposit(&mut vault, &mut pos, 5, 10_000_000, 1).unwrap();
    assert_eq!(
        withdraw(&mut vault, &mut pos, 5, 10_000_001, 1_000_000_000, 0).unwrap_err(),
        VaultError::InsufficientShares
    );
}

#[test]
fn withdraw_from_pool_without_shares_rejected() {
    let mut vault = fresh_vault(0, 0);
    // a stale position against a drained pool
    let mut pos = UserPosition { owner: 5, shares: 10, deposited_amount: 10, last_deposit_ts: 0 };
    assert_eq!(
        withdraw(&mut vault, &mut pos, 5, 10, 1_000_000_000, 0).unwrap_err(),
        VaultError::NoSharesOutstanding
    );
}

#[test]
fn withdraw_leaving_dust_rejected_and_mutates_nothing() {
    let mut vault = fresh_vault(500, 0);
    let mut pos = fresh_position(5);
    deposit(&mut vault, &mut pos, 5, 1_000_000_000, 1).unwrap();
    let vault_before = Vault { allocations: vault.allocations.clone(), ..vault };
    let pos_before = pos;
    // remaining 5_000_000 shares would be worth 5_000_000 lamports,
    // below the 10_000_000 minimum
    assert_eq!(
        withdraw(&mut vault, &mut pos, 5, 995_000_000, 2_000_000_000, 0).unwrap_err(),
        VaultError::DustWithdrawal
    );
    assert_eq!(vault, vault_before);
    assert_eq!(pos, pos_before);
}

#[test]
fn withdraw_keeping_reserve_floor() {
    let mut vault = fresh_vault(0, 0);
    let mut pos = fresh_position(5);
    deposit(&mut vault, &mut pos, 5, 1_000_000_000, 1).unwrap();
    // net would be 1_000_000_000; the custody account holds that plus a
    // 2_000_000 floor minus one lamport
    assert_eq!(
        withdraw(&mut vault, &mut pos, 5, 1_000_000_000, 1_001_999_999, 2_000_000).unwrap_err(),
        VaultError::BelowReserveMinimum
    );
    // with exactly the floor retained the withdrawal goes through
    let ev = withdraw(&mut vault, &mut pos, 5, 1_000_000_000, 1_002_000_000, 2_000_000).unwrap();
    assert_eq!(ev.amount_returned, 1_000_000_000);
}

#[test]
fn withdraw_charges_fee_only_on_yield() {
    // pool with 100% yield: two shares back two lamports each
    let mut vault = fresh_vault(3000, 0);
    vault.total_deposited = 2_000_000_000;
    vault.total_shares = 1_000_000_000;
    let mut pos = UserPosition {
        owner: 5,
        shares: 1_000_000_000,
        deposited_amount: 1_000_000_000,
        last_deposit_ts: 0,
    };
    let ev = withdraw(&mut vault, &mut pos, 5, 1_000_000_000, 4_000_000_000, 0).unwrap();
    // gross 2e9, basis 1e9, yield 1e9, fee 30% = 3e8, net 1.7e9
    assert_eq!(ev.amount_returned, 1_700_000_000);
    assert_eq!(ev.fee_charged, 300_000_000);
    assert_eq!(vault.accrued_fees, 300_000_000);
    assert_eq!(vault.total_deposited, 0);
    assert_eq!(vault.total_shares, 0);
    assert_eq!(vault.depositor_count, 0);
}

#[test]
fn vault_starts_with_pending_authority_cleared() {
    let vault = fresh_vault(0, 0);
    assert_eq!(vault.pending_authority, NO_AUTHORITY);
    assert_eq!(vault.authority, 1);
    assert!(!vault.is_paused);
    assert_eq!(vault.accrued_fees, 0);
    assert_eq!(vault.last_rebalance_ts, 100);
}
