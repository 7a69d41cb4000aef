use vstd::prelude::*;
use vstd::arithmetic::div_mod::{lemma_div_is_ordered, lemma_div_multiples_vanish};
use vstd::arithmetic::mul::{
    lemma_mul_is_commutative, lemma_mul_is_distributive_add, lemma_mul_left_inequality,
};
use crate::errors::VaultError;
use crate::share_math::{
    amount_for_shares_spec, calculate_shares_for_deposit, calculate_withdrawal_amount,
    lemma_amount_for_shares_range, lemma_div_superadditive, lemma_mul_div_le_left, mul_div,
    performance_fee_spec, proportional_basis_spec, shares_for_deposit_spec,
};
use crate::state::{
    lemma_sum_current_amount_push, lemma_sum_target_pct_nonneg, lemma_sum_target_pct_pointwise,
    lemma_sum_target_pct_prefix, lemma_sum_target_pct_prefix_le, sum_current_amount, sum_target_pct,
    unique_protocol_ids, AccountId, Allocation, AuthorityAcceptedEvent, AuthorityProposedEvent,
    ConfigUpdatedEvent, DepositEvent, FeeCollectedEvent, PositionClosedEvent, RebalanceEvent,
    UserPosition, Vault, WithdrawEvent, BPS_DENOMINATOR, MAX_ALLOCATIONS, MAX_FEE_BPS,
    MIN_DEPOSIT_LAMPORTS, NO_AUTHORITY,
};

verus! {

/// The allocation lists that `initialize` and `update_allocations` accept:
/// non-empty, within bounds, percentages summing to exactly 100 and no
/// destination named twice.
pub open spec fn valid_allocation_list(allocs: Seq<Allocation>) -> bool {
    &&& allocs.len() <= MAX_ALLOCATIONS
    &&& allocs.len() > 0
    &&& sum_target_pct(allocs) == 100
    &&& unique_protocol_ids(allocs)
}

/// Sums the target percentages; the bound on the list length keeps the
/// accumulator well inside `u16`.
fn sum_pct(allocs: &Vec<Allocation>) -> (total: u16)
    requires
        allocs@.len() <= MAX_ALLOCATIONS,
    ensures
        total == sum_target_pct(allocs@),
{
    let mut total: u16 = 0;
    let mut i: usize = 0;
    while i < allocs.len()
        invariant
            allocs@.len() <= MAX_ALLOCATIONS,
            i <= allocs@.len(),
            total == sum_target_pct(allocs@.subrange(0, i as int)),
            total <= i * 255,
        decreases allocs@.len() - i,
    {
        proof {
            lemma_sum_target_pct_prefix(allocs@, i as int);
        }
        total = total + allocs[i].target_pct as u16;
        i = i + 1;
    }
    proof {
        assert(allocs@.subrange(0, allocs@.len() as int) =~= allocs@);
    }
    total
}

/// Reports whether some destination is named by two entries.
fn has_duplicate_ids(allocs: &Vec<Allocation>) -> (dup: bool)
    ensures
        dup <==> !unique_protocol_ids(allocs@),
{
    let n = allocs.len();
    let mut i: usize = 0;
    while i < n
        invariant
            n == allocs@.len(),
            i <= n,
            forall|a: int, b: int| 0 <= a < b < i ==> allocs@[a].protocol_id != allocs@[b].protocol_id,
        decreases n - i,
    {
        let mut j: usize = 0;
        while j < i
            invariant
                n == allocs@.len(),
                i < n,
                j <= i,
                forall|a: int, b: int| 0 <= a < b < i ==> allocs@[a].protocol_id != allocs@[b].protocol_id,
                forall|b: int| 0 <= b < j ==> allocs@[b].protocol_id != allocs@[i as int].protocol_id,
            decreases i - j,
        {
            if allocs[j].protocol_id == allocs[i].protocol_id {
                return true;
            }
            j = j + 1;
        }
        i = i + 1;
    }
    false
}

/// Rejects lists that are over-long, empty, off-sum or carry a duplicate
/// destination, with the same precedence as the operations that use it.
fn check_allocation_list(allocs: &Vec<Allocation>) -> (r: Result<(), VaultError>)
    ensures
        r is Ok <==> valid_allocation_list(allocs@),
        r matches Err(e) ==> (if allocs@.len() > MAX_ALLOCATIONS {
            e == VaultError::TooManyAllocations
        } else {
            e == VaultError::InvalidAllocations
        }),
{
    if allocs.len() > MAX_ALLOCATIONS {
        return Err(VaultError::TooManyAllocations);
    }
    if allocs.len() == 0 {
        return Err(VaultError::InvalidAllocations);
    }
    if sum_pct(allocs) != 100 {
        return Err(VaultError::InvalidAllocations);
    }
    if has_duplicate_ids(allocs) {
        return Err(VaultError::InvalidAllocations);
    }
    Ok(())
}

/// Copy of a list with every `current_amount` reset to 0, so that stale
/// target amounts never leak past a list replacement.
fn zeroed_allocations(allocs: &Vec<Allocation>) -> (r: Vec<Allocation>)
    ensures
        r@.len() == allocs@.len(),
        forall|i: int|
            0 <= i < allocs@.len() ==> r@[i] == (Allocation { current_amount: 0, ..allocs@[i] }),
{
    let mut cleaned: Vec<Allocation> = Vec::new();
    let mut i: usize = 0;
    while i < allocs.len()
        invariant
            i <= allocs@.len(),
            cleaned@.len() == i,
            forall|j: int|
                0 <= j < i ==> cleaned@[j] == (Allocation { current_amount: 0, ..allocs@[j] }),
        decreases allocs@.len() - i,
    {
        let a = allocs[i];
        cleaned.push(Allocation { protocol_id: a.protocol_id, target_pct: a.target_pct, current_amount: 0 });
        i = i + 1;
    }
    cleaned
}

/// Creates the vault: validates the fee against its ceiling and the
/// allocation list, zeroes every target amount and starts with an empty
/// pool, no pending transfer and the creator as authority.
pub fn initialize(
    authority: AccountId,
    performance_fee_bps: u16,
    deposit_cap: u64,
    allocations: Vec<Allocation>,
    now: i64,
) -> (r: Result<Vault, VaultError>)
    ensures
        r is Ok <==> performance_fee_bps <= MAX_FEE_BPS && valid_allocation_list(allocations@),
        r matches Err(e) ==> (if performance_fee_bps > MAX_FEE_BPS {
            e == VaultError::FeeTooHigh
        } else if allocations@.len() > MAX_ALLOCATIONS {
            e == VaultError::TooManyAllocations
        } else {
            e == VaultError::InvalidAllocations
        }),
        r matches Ok(v) ==> ({
            &&& v.authority == authority
            &&& v.total_deposited == 0
            &&& v.total_shares == 0
            &&& v.performance_fee_bps == performance_fee_bps
            &&& v.deposit_cap == deposit_cap
            &&& !v.is_paused
            &&& v.allocations@.len() == allocations@.len()
            &&& forall|i: int|
                0 <= i < allocations@.len() ==> v.allocations@[i] == (Allocation {
                    current_amount: 0,
                    ..allocations@[i]
                })
            &&& v.accrued_fees == 0
            &&& v.last_rebalance_ts == now
            &&& v.depositor_count == 0
            &&& v.pending_authority == NO_AUTHORITY
            &&& v.wf()
        }),
{
    if performance_fee_bps > MAX_FEE_BPS {
        return Err(VaultError::FeeTooHigh);
    }
    check_allocation_list(&allocations)?;
    let cleaned = zeroed_allocations(&allocations);
    proof {
        lemma_sum_target_pct_pointwise(cleaned@, allocations@);
    }
    Ok(
        Vault {
            authority,
            total_deposited: 0,
            total_shares: 0,
            performance_fee_bps,
            deposit_cap,
            is_paused: false,
            allocations: cleaned,
            accrued_fees: 0,
            last_rebalance_ts: now,
            depositor_count: 0,
            pending_authority: NO_AUTHORITY,
        },
    )
}

/// Authority-only. Replaces the allocation targets after full validation
/// and resets every `current_amount` to 0.
pub fn update_allocations(vault: &mut Vault, caller: AccountId, new_allocations: Vec<Allocation>) -> (r: Result<
    (),
    VaultError,
>)
    ensures
        r is Ok <==> caller == old(vault).authority && valid_allocation_list(new_allocations@),
        r matches Err(e) ==> *final(vault) == *old(vault) && (if caller != old(vault).authority {
            e == VaultError::Unauthorized
        } else if new_allocations@.len() > MAX_ALLOCATIONS {
            e == VaultError::TooManyAllocations
        } else {
            e == VaultError::InvalidAllocations
        }),
        r is Ok ==> ({
            &&& final(vault).allocations@.len() == new_allocations@.len()
            &&& forall|i: int|
                0 <= i < new_allocations@.len() ==> final(vault).allocations@[i] == (Allocation {
                    current_amount: 0,
                    ..new_allocations@[i]
                })
            &&& *final(vault) == (Vault { allocations: final(vault).allocations, ..*old(vault) })
        }),
        old(vault).wf() ==> final(vault).wf(),
{
    if caller != vault.authority {
        return Err(VaultError::Unauthorized);
    }
    check_allocation_list(&new_allocations)?;
    let cleaned = zeroed_allocations(&new_allocations);
    proof {
        lemma_sum_target_pct_pointwise(cleaned@, new_allocations@);
    }
    vault.allocations = cleaned;
    Ok(())
}

/// The rejection a deposit meets, if any, in the order the checks run:
/// pause guard, minimum, cap (with its own overflow check), then the share
/// mint and every ledger increment validated before anything is written.
pub open spec fn deposit_error(vault: Vault, position: UserPosition, amount: u64) -> Option<VaultError> {
    let td = vault.total_deposited as int;
    let ts = vault.total_shares as int;
    let s = shares_for_deposit_spec(amount as int, td, ts);
    if vault.is_paused {
        Some(VaultError::VaultPaused)
    } else if amount < MIN_DEPOSIT_LAMPORTS {
        Some(VaultError::BelowMinimumDeposit)
    } else if vault.deposit_cap > 0 && td + amount > u64::MAX {
        Some(VaultError::MathOverflow)
    } else if vault.deposit_cap > 0 && td + amount > vault.deposit_cap {
        Some(VaultError::DepositCapExceeded)
    } else if s > u64::MAX {
        Some(VaultError::MathOverflow)
    } else if td + amount > u64::MAX {
        Some(VaultError::MathOverflow)
    } else if ts + s > u64::MAX {
        Some(VaultError::MathOverflow)
    } else if position.shares + s > u64::MAX {
        Some(VaultError::MathOverflow)
    } else if position.deposited_amount + amount > u64::MAX {
        Some(VaultError::MathOverflow)
    } else if position.shares == 0 && vault.depositor_count + 1 > u64::MAX {
        Some(VaultError::MathOverflow)
    } else {
        None
    }
}

/// Adds `amount` to the pool and mints the caller proportional shares.
/// The host has already moved the funds' custody; every arithmetic step is
/// validated before any ledger field is written, so a rejection mutates
/// nothing. The depositor count grows only when the position previously
/// held no shares.
pub fn deposit(vault: &mut Vault, position: &mut UserPosition, user: AccountId, amount: u64, now: i64) -> (r:
    Result<DepositEvent, VaultError>)
    ensures
        r is Ok <==> deposit_error(*old(vault), *old(position), amount) is None,
        r matches Err(e) ==> deposit_error(*old(vault), *old(position), amount) == Some(e)
            && *final(vault) == *old(vault) && *final(position) == *old(position),
        r is Ok ==> ({
            let s = shares_for_deposit_spec(
                amount as int,
                old(vault).total_deposited as int,
                old(vault).total_shares as int,
            );
            &&& *final(vault) == (Vault {
                total_deposited: (old(vault).total_deposited + amount) as u64,
                total_shares: (old(vault).total_shares + s) as u64,
                depositor_count: (if old(position).shares == 0 {
                    (old(vault).depositor_count + 1) as u64
                } else {
                    old(vault).depositor_count
                }),
                ..*old(vault)
            })
            &&& *final(position) == (UserPosition {
                owner: user,
                shares: (old(position).shares + s) as u64,
                deposited_amount: (old(position).deposited_amount + amount) as u64,
                last_deposit_ts: now,
            })
            &&& r->Ok_0 == (DepositEvent {
                user,
                amount,
                shares_minted: s as u64,
                total_deposited: final(vault).total_deposited,
                total_shares: final(vault).total_shares,
            })
        }),
        old(vault).wf() ==> final(vault).wf(),
        old(vault).wf() && old(position).shares <= old(vault).total_shares ==> final(position).shares
            <= final(vault).total_shares,
        // shares stay fully backed, so no depositor ever gets a better
        // rate than the bootstrap ratio
        old(vault).wf() && old(vault).total_shares <= old(vault).total_deposited ==> final(
            vault).total_shares <= final(vault).total_deposited,
{
    proof {
        if old(vault).wf() && old(vault).total_shares <= old(vault).total_deposited {
            crate::share_math::lemma_deposit_preserves_backing(
                amount,
                old(vault).total_deposited,
                old(vault).total_shares,
            );
        }
    }
    if vault.is_paused {
        return Err(VaultError::VaultPaused);
    }
    if amount < MIN_DEPOSIT_LAMPORTS {
        return Err(VaultError::BelowMinimumDeposit);
    }
    if vault.deposit_cap > 0 {
        if amount > u64::MAX - vault.total_deposited {
            return Err(VaultError::MathOverflow);
        }
        if vault.total_deposited + amount > vault.deposit_cap {
            return Err(VaultError::DepositCapExceeded);
        }
    }
    let shares_to_mint = match calculate_shares_for_deposit(amount, vault.total_deposited, vault.total_shares) {
        Ok(s) => s,
        Err(e) => {
            return Err(e);
        },
    };
    if amount > u64::MAX - vault.total_deposited {
        return Err(VaultError::MathOverflow);
    }
    if shares_to_mint > u64::MAX - vault.total_shares {
        return Err(VaultError::MathOverflow);
    }
    if shares_to_mint > u64::MAX - position.shares {
        return Err(VaultError::MathOverflow);
    }
    if amount > u64::MAX - position.deposited_amount {
        return Err(VaultError::MathOverflow);
    }
    let is_new_depositor = position.shares == 0;
    if is_new_depositor && vault.depositor_count == u64::MAX {
        return Err(VaultError::MathOverflow);
    }
    vault.total_deposited = vault.total_deposited + amount;
    vault.total_shares = vault.total_shares + shares_to_mint;
    position.owner = user;
    position.shares = position.shares + shares_to_mint;
    position.deposited_amount = position.deposited_amount + amount;
    position.last_deposit_ts = now;
    if is_new_depositor {
        vault.depositor_count = vault.depositor_count + 1;
    }
    Ok(
        DepositEvent {
            user,
            amount,
            shares_minted: shares_to_mint,
            total_deposited: vault.total_deposited,
            total_shares: vault.total_shares,
        },
    )
}

/// The rejection a withdrawal meets, if any, in the order the checks run:
/// ownership, pause guard, input validation, the redemption arithmetic,
/// the dust guard against the post-withdrawal pool, the custody reserve
/// floor, and the ledger decrements — all validated before anything is
/// written.
pub open spec fn withdraw_error(
    vault: Vault,
    position: UserPosition,
    user: AccountId,
    shares_to_burn: u64,
    vault_balance: u64,
    reserve_floor: u64,
) -> Option<VaultError> {
    let td = vault.total_deposited as int;
    let ts = vault.total_shares as int;
    let burn = shares_to_burn as int;
    let gross = amount_for_shares_spec(burn, td, ts);
    let basis = proportional_basis_spec(position.deposited_amount as int, burn, position.shares as int);
    let fee = performance_fee_spec(gross, basis, vault.performance_fee_bps as int);
    let net = gross - fee;
    let remaining = position.shares - burn;
    if position.owner != user {
        Some(VaultError::Unauthorized)
    } else if vault.is_paused {
        Some(VaultError::VaultPaused)
    } else if shares_to_burn == 0 {
        Some(VaultError::ZeroAmount)
    } else if position.shares < shares_to_burn {
        Some(VaultError::InsufficientShares)
    } else if vault.total_shares == 0 {
        Some(VaultError::NoSharesOutstanding)
    } else if gross > u64::MAX {
        Some(VaultError::MathOverflow)
    } else if fee > u64::MAX {
        Some(VaultError::MathOverflow)
    } else if fee > gross {
        Some(VaultError::MathOverflow)
    } else if remaining > 0 && gross > td {
        Some(VaultError::MathOverflow)
    } else if remaining > 0 && burn >= ts {
        Some(VaultError::MathOverflow)
    } else if remaining > 0 && remaining * (td - gross) / (ts - burn) > u64::MAX {
        Some(VaultError::MathOverflow)
    } else if remaining > 0 && remaining * (td - gross) / (ts - burn) < MIN_DEPOSIT_LAMPORTS {
        Some(VaultError::DustWithdrawal)
    } else if net > vault_balance {
        Some(VaultError::MathOverflow)
    } else if vault_balance - net < reserve_floor {
        Some(VaultError::BelowReserveMinimum)
    } else if gross > td {
        Some(VaultError::MathOverflow)
    } else if burn > ts {
        Some(VaultError::MathOverflow)
    } else if vault.accrued_fees + fee > u64::MAX {
        Some(VaultError::MathOverflow)
    } else {
        None
    }
}

/// Burns `shares_to_burn` of the caller's shares for a proportional slice
/// of the pool, charging the performance fee only on the yield portion —
/// the excess of the gross redemption over the proportional cost basis.
/// A withdrawal that would leave the position holding shares worth less
/// than the minimum deposit against the post-withdrawal pool is rejected
/// as dust, and the custody account must keep its reserve floor after
/// paying the net amount. A rejection mutates nothing; on success the
/// position's cost basis falls by exactly the proportional slice.
pub fn withdraw(
    vault: &mut Vault,
    position: &mut UserPosition,
    user: AccountId,
    shares_to_burn: u64,
    vault_balance: u64,
    reserve_floor: u64,
) -> (r: Result<WithdrawEvent, VaultError>)
    ensures
        r is Ok <==> withdraw_error(
            *old(vault),
            *old(position),
            user,
            shares_to_burn,
            vault_balance,
            reserve_floor,
        ) is None,
        r matches Err(e) ==> withdraw_error(
            *old(vault),
            *old(position),
            user,
            shares_to_burn,
            vault_balance,
            reserve_floor,
        ) == Some(e) && *final(vault) == *old(vault) && *final(position) == *old(position),
        r is Ok ==> ({
            let td = old(vault).total_deposited as int;
            let ts = old(vault).total_shares as int;
            let burn = shares_to_burn as int;
            let gross = amount_for_shares_spec(burn, td, ts);
            let basis = proportional_basis_spec(
                old(position).deposited_amount as int,
                burn,
                old(position).shares as int,
            );
            let fee = performance_fee_spec(gross, basis, old(vault).performance_fee_bps as int);
            let remaining = old(position).shares - burn;
            &&& *final(vault) == (Vault {
                total_deposited: (td - gross) as u64,
                total_shares: (ts - burn) as u64,
                accrued_fees: (old(vault).accrued_fees + fee) as u64,
                depositor_count: (if remaining == 0 {
                    if old(vault).depositor_count > 0 {
                        (old(vault).depositor_count - 1) as u64
                    } else {
                        0u64
                    }
                } else {
                    old(vault).depositor_count
                }),
                ..*old(vault)
            })
            &&& *final(position) == (UserPosition {
                shares: remaining as u64,
                deposited_amount: (old(position).deposited_amount - basis) as u64,
                ..*old(position)
            })
            &&& r->Ok_0 == (WithdrawEvent {
                user,
                shares_burned: shares_to_burn,
                amount_returned: (gross - fee) as u64,
                fee_charged: fee as u64,
                total_deposited: final(vault).total_deposited,
                total_shares: final(vault).total_shares,
            })
        }),
        old(vault).wf() ==> final(vault).wf(),
        old(vault).wf() && old(position).shares <= old(vault).total_shares ==> final(position).shares
            <= final(vault).total_shares,
        // shares stay fully backed, so no depositor ever gets a better
        // rate than the bootstrap ratio
        old(vault).total_shares <= old(vault).total_deposited && old(position).shares <= old(
            vault).total_shares ==> final(vault).total_shares <= final(vault).total_deposited,
        final(vault).accrued_fees >= old(vault).accrued_fees,
{
    proof {
        if 0 < shares_to_burn <= old(position).shares <= old(vault).total_shares <= old(
            vault).total_deposited {
            crate::share_math::lemma_withdraw_preserves_backing(
                shares_to_burn,
                old(vault).total_deposited,
                old(vault).total_shares,
            );
        }
    }
    if position.owner != user {
        return Err(VaultError::Unauthorized);
    }
    if vault.is_paused {
        return Err(VaultError::VaultPaused);
    }
    if shares_to_burn == 0 {
        return Err(VaultError::ZeroAmount);
    }
    if position.shares < shares_to_burn {
        return Err(VaultError::InsufficientShares);
    }
    if vault.total_shares == 0 {
        return Err(VaultError::NoSharesOutstanding);
    }
    let withdraw_amount = match calculate_withdrawal_amount(
        shares_to_burn,
        vault.total_deposited,
        vault.total_shares,
    ) {
        Ok(amount) => amount,
        Err(e) => {
            return Err(e);
        },
    };
    proof {
        lemma_mul_div_le_left(
            old(position).deposited_amount as int,
            shares_to_burn as int,
            old(position).shares as int,
        );
    }
    let proportional_deposit = match mul_div(position.deposited_amount, shares_to_burn, position.shares) {
        Ok(basis) => basis,
        Err(e) => {
            return Err(e);
        },
    };
    let fee: u64 = if withdraw_amount > proportional_deposit {
        let yield_amount = withdraw_amount - proportional_deposit;
        match mul_div(yield_amount, vault.performance_fee_bps as u64, BPS_DENOMINATOR) {
            Ok(f) => f,
            Err(e) => {
                return Err(e);
            },
        }
    } else {
        0
    };
    if fee > withdraw_amount {
        return Err(VaultError::MathOverflow);
    }
    let net_amount = withdraw_amount - fee;
    let remaining_shares = position.shares - shares_to_burn;
    if remaining_shares > 0 {
        if withdraw_amount > vault.total_deposited {
            return Err(VaultError::MathOverflow);
        }
        if shares_to_burn >= vault.total_shares {
            return Err(VaultError::MathOverflow);
        }
        let post_total_deposited = vault.total_deposited - withdraw_amount;
        let post_total_shares = vault.total_shares - shares_to_burn;
        let remaining_value = match mul_div(remaining_shares, post_total_deposited, post_total_shares) {
            Ok(v) => v,
            Err(e) => {
                return Err(e);
            },
        };
        if remaining_value < MIN_DEPOSIT_LAMPORTS {
            return Err(VaultError::DustWithdrawal);
        }
    }
    if net_amount > vault_balance {
        return Err(VaultError::MathOverflow);
    }
    if vault_balance - net_amount < reserve_floor {
        return Err(VaultError::BelowReserveMinimum);
    }
    if withdraw_amount > vault.total_deposited {
        return Err(VaultError::MathOverflow);
    }
    if shares_to_burn > vault.total_shares {
        return Err(VaultError::MathOverflow);
    }
    if fee > u64::MAX - vault.accrued_fees {
        return Err(VaultError::MathOverflow);
    }
    proof {
        if old(vault).wf() {
            lemma_amount_for_shares_range(
                shares_to_burn as int,
                old(vault).total_deposited as int,
                old(vault).total_shares as int,
            );
        }
    }
    vault.total_deposited = vault.total_deposited - withdraw_amount;
    vault.total_shares = vault.total_shares - shares_to_burn;
    vault.accrued_fees = vault.accrued_fees + fee;
    position.shares = remaining_shares;
    position.deposited_amount = position.deposited_amount - proportional_deposit;
    if remaining_shares == 0 {
        vault.depositor_count = if vault.depositor_count > 0 {
            vault.depositor_count - 1
        } else {
            0
        };
    }
    Ok(
        WithdrawEvent {
            user,
            shares_burned: shares_to_burn,
            amount_returned: net_amount,
            fee_charged: fee,
            total_deposited: vault.total_deposited,
            total_shares: vault.total_shares,
        },
    )
}

/// Authority-only. Recomputes each destination's target amount from the
/// pool total and its percentage: every entry but the last gets
/// `floor(total * pct / 100)` and the last absorbs the remainder, so the
/// targets sum to the pool total exactly. An empty pool is a no-op that
/// does not fail. This only recomputes bookkeeping; a downstream mover
/// performs the actual fund movement.
pub fn rebalance(vault: &mut Vault, caller: AccountId, now: i64) -> (r: Result<
    Option<RebalanceEvent>,
    VaultError,
>)
    ensures
        r is Ok ==> caller == old(vault).authority,
        r matches Err(e) ==> *final(vault) == *old(vault) && (e == VaultError::Unauthorized || e
            == VaultError::MathOverflow) && (e == VaultError::Unauthorized <==> caller != old(
            vault).authority),
        caller == old(vault).authority && old(vault).total_deposited == 0 ==> (r matches Ok(o) && o
            is None && *final(vault) == *old(vault)),
        old(vault).wf() && caller == old(vault).authority ==> r is Ok,
        r matches Ok(o) && o is Some ==> ({
            &&& old(vault).total_deposited > 0
            &&& *final(vault) == (Vault {
                allocations: final(vault).allocations,
                last_rebalance_ts: now,
                ..*old(vault)
            })
            &&& final(vault).allocations@.len() == old(vault).allocations@.len()
            &&& forall|i: int|
                0 <= i < old(vault).allocations@.len() ==> final(vault).allocations@[i].protocol_id
                    == old(vault).allocations@[i].protocol_id
                    && final(vault).allocations@[i].target_pct == old(vault).allocations@[i].target_pct
        }),
        old(vault).wf() && caller == old(vault).authority && old(vault).total_deposited > 0 ==> ({
            let td = old(vault).total_deposited as int;
            let a0 = old(vault).allocations@;
            let n = a0.len() as int;
            &&& r matches Ok(o)
            &&& o matches Some(ev)
            &&& ev == (RebalanceEvent {
                timestamp: now,
                total_deposited: old(vault).total_deposited,
                num_allocations: a0.len() as u8,
            })
            &&& forall|i: int|
                0 <= i < n - 1 ==> final(vault).allocations@[i].current_amount == td
                    * a0[i].target_pct / 100
            &&& n > 0 ==> sum_current_amount(final(vault).allocations@) == td
        }),
        old(vault).wf() ==> final(vault).wf(),
{
    if caller != vault.authority {
        return Err(VaultError::Unauthorized);
    }
    let total = vault.total_deposited;
    if total == 0 {
        return Ok(None);
    }
    let n = vault.allocations.len();
    let mut new_allocs: Vec<Allocation> = Vec::new();
    let mut allocated: u64 = 0;
    let mut i: usize = 0;
    while i < n
        invariant
            *vault == *old(vault),
            n == vault.allocations@.len(),
            total == vault.total_deposited,
            total > 0,
            caller == vault.authority,
            i <= n,
            new_allocs@.len() == i,
            forall|j: int|
                0 <= j < i ==> new_allocs@[j].protocol_id == vault.allocations@[j].protocol_id
                    && new_allocs@[j].target_pct == vault.allocations@[j].target_pct,
            forall|j: int|
                0 <= j < i && j < n - 1 ==> new_allocs@[j].current_amount == total as int
                    * vault.allocations@[j].target_pct / 100,
            i < n ==> allocated == sum_current_amount(new_allocs@),
            i == n && n > 0 ==> sum_current_amount(new_allocs@) == total,
            vault.wf() && i < n ==> allocated <= total as int * sum_target_pct(
                vault.allocations@.subrange(0, i as int),
            ) / 100,
        decreases n - i,
    {
        let a = vault.allocations[i];
        proof {
            if vault.wf() {
                let a0 = vault.allocations@;
                let pre = sum_target_pct(a0.subrange(0, i as int));
                let p = a0[i as int].target_pct as int;
                lemma_sum_target_pct_nonneg(a0.subrange(0, i as int));
                lemma_sum_target_pct_prefix(a0, i as int);
                lemma_sum_target_pct_prefix_le(a0, i as int + 1);
                // Within the list, pre >= 0, pre + p <= 100; so each target
                // amount and the running sum stay within the pool total.
                lemma_mul_div_le_left(total as int, p, 100);
                lemma_mul_is_distributive_add(total as int, pre, p);
                lemma_div_superadditive(total as int * pre, total as int * p, 100);
                lemma_mul_left_inequality(total as int, pre + p, 100);
                lemma_mul_left_inequality(total as int, pre, 100);
                lemma_div_is_ordered(total as int * (pre + p), total as int * 100, 100);
                lemma_div_is_ordered(total as int * pre, total as int * 100, 100);
                lemma_mul_is_commutative(total as int, 100);
                lemma_div_multiples_vanish(total as int, 100);
            }
        }
        if i == n - 1 {
            if allocated > total {
                return Err(VaultError::MathOverflow);
            }
            let last = Allocation {
                protocol_id: a.protocol_id,
                target_pct: a.target_pct,
                current_amount: total - allocated,
            };
            proof {
                lemma_sum_current_amount_push(new_allocs@, last);
            }
            new_allocs.push(last);
        } else {
            let target = match mul_div(total, a.target_pct as u64, 100) {
                Ok(t) => t,
                Err(e) => {
                    return Err(e);
                },
            };
            if target > u64::MAX - allocated {
                return Err(VaultError::MathOverflow);
            }
            allocated = allocated + target;
            let entry = Allocation {
                protocol_id: a.protocol_id,
                target_pct: a.target_pct,
                current_amount: target,
            };
            proof {
                lemma_sum_current_amount_push(new_allocs@, entry);
            }
            new_allocs.push(entry);
        }
        i = i + 1;
    }
    proof {
        if vault.wf() {
            lemma_sum_target_pct_pointwise(new_allocs@, vault.allocations@);
            assert forall|a: int, b: int|
                0 <= a < b < new_allocs@.len() implies new_allocs@[a].protocol_id
                != new_allocs@[b].protocol_id by {
                assert(vault.allocations@[a].protocol_id != vault.allocations@[b].protocol_id);
            }
        }
    }
    vault.allocations = new_allocs;
    vault.last_rebalance_ts = now;
    Ok(
        Some(
            RebalanceEvent {
                timestamp: now,
                total_deposited: total,
                num_allocations: #[verifier::truncate] (n as u8),
            },
        ),
    )
}

/// Authority-only payout of accrued fees. The custody account must retain
/// the reserve floor plus full backing for `total_deposited` after the
/// transfer; on success the accrued counter resets to 0 and the host pays
/// the recorded amount.
pub fn collect_fees(vault: &mut Vault, caller: AccountId, vault_balance: u64, reserve_floor: u64) -> (r: Result<
    FeeCollectedEvent,
    VaultError,
>)
    ensures
        r is Ok <==> caller == old(vault).authority && old(vault).accrued_fees > 0 && old(
            vault,
        ).accrued_fees <= vault_balance && reserve_floor + old(vault).total_deposited <= u64::MAX
            && vault_balance - old(vault).accrued_fees >= reserve_floor + old(vault).total_deposited,
        r matches Err(e) ==> *final(vault) == *old(vault) && (if caller != old(vault).authority {
            e == VaultError::Unauthorized
        } else if old(vault).accrued_fees == 0 {
            e == VaultError::ZeroAmount
        } else if old(vault).accrued_fees > vault_balance || reserve_floor + old(vault).total_deposited
            > u64::MAX {
            e == VaultError::MathOverflow
        } else {
            e == VaultError::BelowReserveMinimum
        }),
        r is Ok ==> *final(vault) == (Vault { accrued_fees: 0, ..*old(vault) }),
        r matches Ok(ev) ==> ev == (FeeCollectedEvent { authority: caller, amount: old(vault).accrued_fees }),
        old(vault).wf() ==> final(vault).wf(),
{
    if caller != vault.authority {
        return Err(VaultError::Unauthorized);
    }
    let fee_amount = vault.accrued_fees;
    if fee_amount == 0 {
        return Err(VaultError::ZeroAmount);
    }
    if fee_amount > vault_balance {
        return Err(VaultError::MathOverflow);
    }
    let balance_after = vault_balance - fee_amount;
    if vault.total_deposited > u64::MAX - reserve_floor {
        return Err(VaultError::MathOverflow);
    }
    let required_minimum = reserve_floor + vault.total_deposited;
    if balance_after < required_minimum {
        return Err(VaultError::BelowReserveMinimum);
    }
    vault.accrued_fees = 0;
    Ok(FeeCollectedEvent { authority: caller, amount: fee_amount })
}

/// Authority-only. Records `new_authority` as the pending candidate of the
/// two-step transfer; proposing `NO_AUTHORITY` cancels a pending proposal,
/// and re-proposals overwrite the prior candidate.
pub fn propose_authority(vault: &mut Vault, caller: AccountId, new_authority: AccountId) -> (r: Result<
    AuthorityProposedEvent,
    VaultError,
>)
    ensures
        r is Ok <==> caller == old(vault).authority,
        r matches Err(e) ==> e == VaultError::Unauthorized && *final(vault) == *old(vault),
        r is Ok ==> *final(vault) == (Vault { pending_authority: new_authority, ..*old(vault) }),
        r matches Ok(ev) ==> ev == (AuthorityProposedEvent {
            current_authority: old(vault).authority,
            proposed_authority: new_authority,
        }),
        // Cancelling when nothing is pending is a no-op that does not fail.
        caller == old(vault).authority && old(vault).pending_authority == NO_AUTHORITY
            && new_authority == NO_AUTHORITY ==> r is Ok && *final(vault) == *old(vault),
        old(vault).wf() ==> final(vault).wf(),
{
    if caller != vault.authority {
        return Err(VaultError::Unauthorized);
    }
    vault.pending_authority = new_authority;
    Ok(AuthorityProposedEvent { current_authority: vault.authority, proposed_authority: new_authority })
}

/// Callable only by the pending candidate. Makes the candidate the
/// authority and clears the pending slot, completing the two-step transfer.
pub fn accept_authority(vault: &mut Vault, caller: AccountId) -> (r: Result<AuthorityAcceptedEvent, VaultError>)
    ensures
        r is Ok <==> caller == old(vault).pending_authority && old(vault).pending_authority != NO_AUTHORITY,
        r matches Err(e) ==> *final(vault) == *old(vault) && (if caller != old(vault).pending_authority {
            e == VaultError::Unauthorized
        } else {
            e == VaultError::NoPendingTransfer
        }),
        r is Ok ==> *final(vault) == (Vault {
            authority: old(vault).pending_authority,
            pending_authority: NO_AUTHORITY,
            ..*old(vault)
        }),
        r matches Ok(ev) ==> ev == (AuthorityAcceptedEvent {
            old_authority: old(vault).authority,
            new_authority: old(vault).pending_authority,
        }),
        old(vault).wf() ==> final(vault).wf(),
{
    if caller != vault.pending_authority {
        return Err(VaultError::Unauthorized);
    }
    if vault.pending_authority == NO_AUTHORITY {
        return Err(VaultError::NoPendingTransfer);
    }
    let old_authority = vault.authority;
    vault.authority = vault.pending_authority;
    vault.pending_authority = NO_AUTHORITY;
    Ok(AuthorityAcceptedEvent { old_authority, new_authority: vault.authority })
}

/// Authority-only. Each field is independently optional: only supplied
/// fields are mutated, and a supplied fee is re-validated against the
/// ceiling before anything is written.
pub fn update_config(
    vault: &mut Vault,
    caller: AccountId,
    new_fee_bps: Option<u16>,
    new_deposit_cap: Option<u64>,
    new_paused: Option<bool>,
) -> (r: Result<ConfigUpdatedEvent, VaultError>)
    ensures
        r is Ok <==> caller == old(vault).authority && (new_fee_bps matches Some(f) ==> f <= MAX_FEE_BPS),
        r matches Err(e) ==> *final(vault) == *old(vault) && (if caller != old(vault).authority {
            e == VaultError::Unauthorized
        } else {
            e == VaultError::FeeTooHigh
        }),
        r is Ok ==> *final(vault) == (Vault {
            performance_fee_bps: (if new_fee_bps is Some { new_fee_bps->0 } else { old(vault).performance_fee_bps }),
            deposit_cap: (if new_deposit_cap is Some { new_deposit_cap->0 } else { old(vault).deposit_cap }),
            is_paused: (if new_paused is Some { new_paused->0 } else { old(vault).is_paused }),
            ..*old(vault)
        }),
        r matches Ok(ev) ==> ev == (ConfigUpdatedEvent {
            fee_bps: new_fee_bps,
            deposit_cap: new_deposit_cap,
            paused: new_paused,
        }),
        old(vault).wf() ==> final(vault).wf(),
{
    if caller != vault.authority {
        return Err(VaultError::Unauthorized);
    }
    if let Some(fee) = new_fee_bps {
        if fee > MAX_FEE_BPS {
            return Err(VaultError::FeeTooHigh);
        }
        vault.performance_fee_bps = fee;
    }
    if let Some(cap) = new_deposit_cap {
        vault.deposit_cap = cap;
    }
    if let Some(paused) = new_paused {
        vault.is_paused = paused;
    }
    Ok(ConfigUpdatedEvent { fee_bps: new_fee_bps, deposit_cap: new_deposit_cap, paused: new_paused })
}

/// Callable by the position owner once the position holds no shares.
/// Pure cleanup with no accounting side effects: the host removes the
/// record and returns its reserved storage to the owner.
pub fn close_position(position: &UserPosition, caller: AccountId) -> (r: Result<PositionClosedEvent, VaultError>)
    ensures
        r is Ok <==> position.owner == caller && position.shares == 0,
        r matches Err(e) ==> (if position.owner != caller {
            e == VaultError::Unauthorized
        } else {
            e == VaultError::InsufficientShares
        }),
        r matches Ok(ev) ==> ev == (PositionClosedEvent { user: caller }),
{
    if position.owner != caller {
        return Err(VaultError::Unauthorized);
    }
    if position.shares != 0 {
        return Err(VaultError::InsufficientShares);
    }
    Ok(PositionClosedEvent { user: caller })
}

} // verus!
