use vstd::prelude::*;
use vstd::arithmetic::div_mod::{
    lemma_div_is_ordered, lemma_div_multiples_vanish, lemma_fundamental_div_mod,
    lemma_mod_division_less_than_divisor, lemma_multiply_divide_le, lemma_multiply_divide_lt,
};
use vstd::arithmetic::mul::{
    lemma_mul_inequality, lemma_mul_is_commutative, lemma_mul_is_distributive_add,
    lemma_mul_strict_inequality, lemma_mul_upper_bound,
};
use crate::errors::VaultError;
use crate::state::{BPS_DENOMINATOR, LAMPORTS_PER_SOL, SHARES_PER_SOL};

verus! {

/// Shares minted for a deposit. An empty pool uses the fixed bootstrap
/// ratio; otherwise the depositor gets `floor(amount * total_shares /
/// total_deposited)` — truncation protects existing holders from dilution
/// at the depositor's expense.
pub open spec fn shares_for_deposit_spec(amount: int, total_deposited: int, total_shares: int) -> int {
    if total_shares == 0 || total_deposited == 0 {
        amount * SHARES_PER_SOL / LAMPORTS_PER_SOL as int
    } else {
        amount * total_shares / total_deposited
    }
}

/// Base-asset units redeemed for burning shares:
/// `floor(shares * total_deposited / total_shares)`.
pub open spec fn amount_for_shares_spec(shares: int, total_deposited: int, total_shares: int) -> int {
    shares * total_deposited / total_shares
}

/// The slice of a position's cost basis attributable to the shares being
/// burned: `floor(deposited_amount * shares_to_burn / position_shares)`.
pub open spec fn proportional_basis_spec(deposited_amount: int, shares_to_burn: int, position_shares: int) -> int {
    deposited_amount * shares_to_burn / position_shares
}

/// Performance fee owed on a withdrawal: charged only on the yield portion,
/// the excess of the gross redemption over the proportional cost basis.
pub open spec fn performance_fee_spec(gross: int, basis: int, fee_bps: int) -> int {
    if gross > basis {
        (gross - basis) * fee_bps / BPS_DENOMINATOR as int
    } else {
        0
    }
}

/// With `b <= c`, the truncating product-quotient `a * b / c` cannot
/// exceed `a`.
pub proof fn lemma_mul_div_le_left(a: int, b: int, c: int)
    requires
        0 <= a,
        0 <= b,
        0 < c,
        b <= c,
    ensures
        a * b / c <= a,
{
    lemma_mul_inequality(b, c, a);
    lemma_mul_is_commutative(b, a);
    lemma_mul_is_commutative(c, a);
    lemma_multiply_divide_le(a * b, c, a);
}

/// Redeeming shares never returns more than the pool holds: redeeming all
/// outstanding shares drains it exactly, redeeming fewer leaves backing
/// behind.
pub proof fn lemma_amount_for_shares_range(shares: int, td: int, ts: int)
    requires
        0 < ts,
        0 <= shares <= ts,
        0 <= td,
    ensures
        amount_for_shares_spec(shares, td, ts) <= td,
        shares == ts ==> amount_for_shares_spec(shares, td, ts) == td,
        shares < ts && td > 0 ==> amount_for_shares_spec(shares, td, ts) < td,
{
    lemma_mul_div_le_left(td, shares, ts);
    lemma_mul_is_commutative(shares, td);
    if shares == ts {
        lemma_div_multiples_vanish(td, ts);
        lemma_mul_is_commutative(ts, td);
    }
    if shares < ts && td > 0 {
        lemma_mul_strict_inequality(shares, ts, td);
        lemma_multiply_divide_lt(shares * td, ts, td);
    }
}

/// Truncating division is superadditive: the sum of two truncated
/// quotients never exceeds the truncated quotient of the sum.
pub proof fn lemma_div_superadditive(a: int, b: int, d: int)
    requires
        0 <= a,
        0 <= b,
        0 < d,
    ensures
        a / d + b / d <= (a + b) / d,
{
    lemma_fundamental_div_mod(a, d);
    lemma_fundamental_div_mod(b, d);
    lemma_mod_division_less_than_divisor(a, d);
    lemma_mod_division_less_than_divisor(b, d);
    lemma_mul_is_distributive_add(d, a / d, b / d);
    lemma_div_is_ordered(d * (a / d + b / d), a + b, d);
    lemma_div_multiples_vanish(a / d + b / d, d);
}

/// Anti-manipulation: while every share is fully backed (shares
/// outstanding never exceed units deposited), a deposit into a non-empty
/// pool never mints more shares per unit than the bootstrap ratio gave the
/// first depositor.
pub proof fn lemma_no_rate_inflation(amount: u64, total_deposited: u64, total_shares: u64)
    requires
        0 < total_shares <= total_deposited,
    ensures
        shares_for_deposit_spec(amount as int, total_deposited as int, total_shares as int)
            <= amount,
        shares_for_deposit_spec(amount as int, 0, 0) == amount,
{
    lemma_mul_div_le_left(amount as int, total_shares as int, total_deposited as int);
    lemma_div_multiples_vanish(amount as int, LAMPORTS_PER_SOL as int);
    lemma_mul_is_commutative(amount as int, LAMPORTS_PER_SOL as int);
}

/// A deposit keeps every share fully backed: if shares outstanding were at
/// most the units deposited before the mint, they still are after it.
pub proof fn lemma_deposit_preserves_backing(amount: u64, total_deposited: u64, total_shares: u64)
    requires
        total_shares <= total_deposited,
        total_shares == 0 <==> total_deposited == 0,
    ensures
        total_shares + shares_for_deposit_spec(
            amount as int,
            total_deposited as int,
            total_shares as int,
        ) <= total_deposited + amount,
{
    if total_shares == 0 || total_deposited == 0 {
        lemma_div_multiples_vanish(amount as int, LAMPORTS_PER_SOL as int);
        lemma_mul_is_commutative(amount as int, LAMPORTS_PER_SOL as int);
    } else {
        lemma_mul_div_le_left(amount as int, total_shares as int, total_deposited as int);
    }
}

/// A withdrawal keeps every share fully backed: burning shares for their
/// gross redemption leaves at least as many units behind as shares remain.
pub proof fn lemma_withdraw_preserves_backing(shares: u64, total_deposited: u64, total_shares: u64)
    requires
        0 < shares <= total_shares,
        total_shares <= total_deposited,
    ensures
        amount_for_shares_spec(shares as int, total_deposited as int, total_shares as int)
            <= total_deposited,
        total_shares - shares <= total_deposited - amount_for_shares_spec(
            shares as int,
            total_deposited as int,
            total_shares as int,
        ),
{
    let burn = shares as int;
    let td = total_deposited as int;
    let ts = total_shares as int;
    lemma_amount_for_shares_range(burn, td, ts);
    assert(burn * td <= ts * (td - ts + burn)) by (nonlinear_arith)
        requires
            burn <= ts,
            ts <= td,
            0 < ts,
    ;
    lemma_multiply_divide_le(burn * td, ts, td - ts + burn);
}

/// Round trip with zero yield: depositing into any pool and immediately
/// burning every newly minted share returns at most the amount deposited,
/// owes no performance fee at any fee rate, and returns the amount exactly
/// when the pool was empty.
pub proof fn lemma_round_trip(amount: u64, total_deposited: u64, total_shares: u64)
    requires
        total_shares == 0 <==> total_deposited == 0,
    ensures
        ({
            let a = amount as int;
            let td = total_deposited as int;
            let ts = total_shares as int;
            let s = shares_for_deposit_spec(a, td, ts);
            let gross = amount_for_shares_spec(s, td + a, ts + s);
            &&& s > 0 ==> proportional_basis_spec(a, s, s) == a
            &&& s > 0 ==> gross <= a
            &&& s > 0 ==> forall|fee_bps: int|
                performance_fee_spec(gross, proportional_basis_spec(a, s, s), fee_bps) == 0
            &&& s > 0 && td == 0 ==> gross == a
        }),
{
    let a = amount as int;
    let td = total_deposited as int;
    let ts = total_shares as int;
    let s = shares_for_deposit_spec(a, td, ts);
    if s > 0 {
        lemma_div_multiples_vanish(a, s);
        lemma_mul_is_commutative(a, s);
        if ts == 0 || td == 0 {
            lemma_div_multiples_vanish(a, LAMPORTS_PER_SOL as int);
            lemma_mul_is_commutative(a, LAMPORTS_PER_SOL as int);
            // the bootstrap mints exactly `a`, and burning `a` of the
            // `a` outstanding shares drains the pool of exactly `a`
            lemma_div_multiples_vanish(a, ts + s);
            lemma_mul_is_commutative(a, ts + s);
            assert(s * (td + a) == (ts + s) * a);
        } else {
            lemma_fundamental_div_mod(a * ts, td);
            lemma_mod_division_less_than_divisor(a * ts, td);
            // s * td <= a * ts, so the redemption cannot exceed the deposit
            lemma_mul_is_commutative(td, s);
            lemma_mul_is_distributive_add(s, td, a);
            lemma_mul_is_distributive_add(a, ts, s);
            lemma_mul_is_commutative(a, ts);
            lemma_mul_is_commutative(a, s);
            lemma_mul_is_commutative(a, ts + s);
            assert(s * (td + a) <= (ts + s) * a);
            lemma_multiply_divide_le(s * (td + a), ts + s, a);
        }
    }
}

/// `floor(a * b / c)` in double-width arithmetic, rejecting results that do
/// not fit the working precision.
pub fn mul_div(a: u64, b: u64, c: u64) -> (r: Result<u64, VaultError>)
    requires
        c > 0,
    ensures
        r is Ok <==> a * b / (c as int) <= u64::MAX,
        r matches Ok(q) ==> q == a * b / (c as int),
        r matches Err(e) ==> e == VaultError::MathOverflow,
{
    proof {
        lemma_mul_upper_bound(a as int, u64::MAX as int, b as int, u64::MAX as int);
    }
    let prod: u128 = (a as u128) * (b as u128);
    let q: u128 = prod / (c as u128);
    if q > u64::MAX as u128 {
        Err(VaultError::MathOverflow)
    } else {
        Ok(q as u64)
    }
}

/// Shares to mint for a deposit. First deposit uses the fixed bootstrap
/// ratio; later deposits are proportional to the current share/deposit
/// ratio, rounded down.
pub fn calculate_shares_for_deposit(deposit_amount: u64, total_deposited: u64, total_shares: u64) -> (r: Result<
    u64,
    VaultError,
>)
    ensures
        r is Ok <==> shares_for_deposit_spec(
            deposit_amount as int,
            total_deposited as int,
            total_shares as int,
        ) <= u64::MAX,
        r matches Ok(s) ==> s == shares_for_deposit_spec(
            deposit_amount as int,
            total_deposited as int,
            total_shares as int,
        ),
        r matches Err(e) ==> e == VaultError::MathOverflow,
{
    if total_shares == 0 || total_deposited == 0 {
        proof {
            lemma_div_multiples_vanish(deposit_amount as int, LAMPORTS_PER_SOL as int);
            lemma_mul_is_commutative(deposit_amount as int, LAMPORTS_PER_SOL as int);
        }
        mul_div(deposit_amount, SHARES_PER_SOL, LAMPORTS_PER_SOL)
    } else {
        mul_div(deposit_amount, total_shares, total_deposited)
    }
}

/// Base-asset units to return for burning shares; the caller must already
/// have verified that shares are outstanding.
pub fn calculate_withdrawal_amount(shares_to_burn: u64, total_deposited: u64, total_shares: u64) -> (r: Result<
    u64,
    VaultError,
>)
    requires
        total_shares > 0,
    ensures
        r is Ok <==> amount_for_shares_spec(
            shares_to_burn as int,
            total_deposited as int,
            total_shares as int,
        ) <= u64::MAX,
        r matches Ok(amount) ==> amount == amount_for_shares_spec(
            shares_to_burn as int,
            total_deposited as int,
            total_shares as int,
        ),
        r matches Err(e) ==> e == VaultError::MathOverflow,
{
    mul_div(shares_to_burn, total_deposited, total_shares)
}

} // verus!
