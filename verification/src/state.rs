use vstd::prelude::*;

verus! {

/// Identity of a caller, as established by the host's authentication layer.
/// The host proves that the caller controls this token before invoking an
/// operation; the engine only ever compares identities for equality.
pub type AccountId = u64;

/// Sentinel identity: no authority transfer is pending.
pub const NO_AUTHORITY: AccountId = 0;

/// Most allocation entries a vault may carry.
pub const MAX_ALLOCATIONS: usize = 10;

/// Minimum deposit, to prevent share price manipulation (0.01 SOL).
pub const MIN_DEPOSIT_LAMPORTS: u64 = 10_000_000;

/// Performance fee ceiling in basis points (30%).
pub const MAX_FEE_BPS: u16 = 3000;

/// Basis points denominator.
pub const BPS_DENOMINATOR: u64 = 10_000;

/// Bootstrap share ratio: shares minted per whole SOL when the pool is
/// empty. High precision to resist first-depositor inflation manipulation.
pub const SHARES_PER_SOL: u64 = 1_000_000_000;

/// Base-asset units per whole SOL.
pub const LAMPORTS_PER_SOL: u64 = 1_000_000_000;

/// Target for one downstream yield destination.
#[derive(Clone, Copy, Debug, PartialEq, Eq, Structural)]
pub struct Allocation {
    /// Identifies the downstream destination.
    pub protocol_id: u8,
    /// Share of the pool targeted at this destination, 0 to 100.
    pub target_pct: u8,
    /// Amount last computed for this destination by a rebalance; reset to 0
    /// whenever the allocation list is replaced.
    pub current_amount: u64,
}

/// Pool-wide aggregate state. One instance per deployment.
#[derive(Debug, PartialEq)]
pub struct Vault {
    /// The privileged identity that may reconfigure the vault.
    pub authority: AccountId,
    /// Base-asset units currently owned by the pool.
    pub total_deposited: u64,
    /// Shares outstanding across all positions.
    pub total_shares: u64,
    /// Performance fee charged on withdrawal yield, in basis points.
    pub performance_fee_bps: u16,
    /// Maximum allowed `total_deposited`; 0 means unlimited.
    pub deposit_cap: u64,
    /// When true, deposits and withdrawals are rejected.
    pub is_paused: bool,
    /// Target allocations across downstream destinations.
    pub allocations: Vec<Allocation>,
    /// Fees collected from withdrawals and not yet paid to the authority.
    pub accrued_fees: u64,
    /// Timestamp of the last allocation recomputation.
    pub last_rebalance_ts: i64,
    /// Number of positions currently holding non-zero shares.
    pub depositor_count: u64,
    /// Candidate of a pending two-step authority transfer;
    /// `NO_AUTHORITY` when none is pending.
    pub pending_authority: AccountId,
}

/// Per-depositor record of shares held and cost basis.
#[derive(Clone, Copy, Debug, PartialEq, Eq, Structural)]
pub struct UserPosition {
    /// The depositor this position belongs to.
    pub owner: AccountId,
    /// Vault shares currently held; zero permits closure.
    pub shares: u64,
    /// Running cost basis, reduced proportionally on partial withdrawal.
    pub deposited_amount: u64,
    /// Timestamp of the most recent deposit.
    pub last_deposit_ts: i64,
}

/// Sum of the `target_pct` fields of an allocation list.
pub open spec fn sum_target_pct(allocs: Seq<Allocation>) -> int
    decreases allocs.len(),
{
    if allocs.len() == 0 {
        0
    } else {
        sum_target_pct(allocs.drop_last()) + allocs.last().target_pct
    }
}

/// Sum of the `current_amount` fields of an allocation list.
pub open spec fn sum_current_amount(allocs: Seq<Allocation>) -> int
    decreases allocs.len(),
{
    if allocs.len() == 0 {
        0
    } else {
        sum_current_amount(allocs.drop_last()) + allocs.last().current_amount
    }
}

/// No two entries name the same downstream destination.
pub open spec fn unique_protocol_ids(allocs: Seq<Allocation>) -> bool {
    forall|i: int, j: int|
        0 <= i < j < allocs.len() ==> allocs[i].protocol_id != allocs[j].protocol_id
}

/// Extending a prefix by one entry adds that entry's percentage.
pub proof fn lemma_sum_target_pct_prefix(s: Seq<Allocation>, i: int)
    requires
        0 <= i < s.len(),
    ensures
        sum_target_pct(s.subrange(0, i + 1)) == sum_target_pct(s.subrange(0, i)) + s[i].target_pct,
{
    let t = s.subrange(0, i + 1);
    assert(t.drop_last() =~= s.subrange(0, i));
}

/// A percentage sum is never negative.
pub proof fn lemma_sum_target_pct_nonneg(s: Seq<Allocation>)
    ensures
        sum_target_pct(s) >= 0,
    decreases s.len(),
{
    if s.len() > 0 {
        lemma_sum_target_pct_nonneg(s.drop_last());
    }
}

/// A prefix never sums to more than the whole list.
pub proof fn lemma_sum_target_pct_prefix_le(s: Seq<Allocation>, i: int)
    requires
        0 <= i <= s.len(),
    ensures
        sum_target_pct(s.subrange(0, i)) <= sum_target_pct(s),
    decreases s.len() - i,
{
    if i == s.len() {
        assert(s.subrange(0, i) =~= s);
    } else {
        lemma_sum_target_pct_prefix(s, i);
        lemma_sum_target_pct_prefix_le(s, i + 1);
    }
}

/// Percentage sums depend only on the `target_pct` fields.
pub proof fn lemma_sum_target_pct_pointwise(s: Seq<Allocation>, t: Seq<Allocation>)
    requires
        s.len() == t.len(),
        forall|i: int| 0 <= i < s.len() ==> s[i].target_pct == t[i].target_pct,
    ensures
        sum_target_pct(s) == sum_target_pct(t),
    decreases s.len(),
{
    if s.len() > 0 {
        lemma_sum_target_pct_pointwise(s.drop_last(), t.drop_last());
    }
}

/// Appending an entry adds its `current_amount` to the sum.
pub proof fn lemma_sum_current_amount_push(s: Seq<Allocation>, a: Allocation)
    ensures
        sum_current_amount(s.push(a)) == sum_current_amount(s) + a.current_amount,
{
    assert(s.push(a).drop_last() =~= s);
}

impl Vault {
    /// Invariants that every operation preserves: the fee respects its
    /// ceiling, the allocation list is within bounds, sums to exactly 100
    /// whenever non-empty and names each destination once, and shares exist
    /// exactly when backing does.
    pub open spec fn wf(self) -> bool {
        &&& self.performance_fee_bps <= MAX_FEE_BPS
        &&& self.allocations@.len() <= MAX_ALLOCATIONS
        &&& self.allocations@.len() > 0 ==> sum_target_pct(self.allocations@) == 100
        &&& unique_protocol_ids(self.allocations@)
        &&& (self.total_shares == 0 <==> self.total_deposited == 0)
    }
}

// ─── Events ──────────────────────────────────────────────────

/// Emitted after a successful deposit.
#[derive(Clone, Copy, Debug, PartialEq, Eq)]
pub struct DepositEvent {
    pub user: AccountId,
    pub amount: u64,
    pub shares_minted: u64,
    pub total_deposited: u64,
    pub total_shares: u64,
}

/// Emitted after a successful withdrawal.
#[derive(Clone, Copy, Debug, PartialEq, Eq)]
pub struct WithdrawEvent {
    pub user: AccountId,
    pub shares_burned: u64,
    pub amount_returned: u64,
    pub fee_charged: u64,
    pub total_deposited: u64,
    pub total_shares: u64,
}

/// Emitted after a successful rebalance over a non-empty pool.
#[derive(Clone, Copy, Debug, PartialEq, Eq)]
pub struct RebalanceEvent {
    pub timestamp: i64,
    pub total_deposited: u64,
    pub num_allocations: u8,
}

/// Emitted after a configuration update; carries exactly the fields that
/// were supplied.
#[derive(Clone, Copy, Debug, PartialEq, Eq)]
pub struct ConfigUpdatedEvent {
    pub fee_bps: Option<u16>,
    pub deposit_cap: Option<u64>,
    pub paused: Option<bool>,
}

/// Emitted when accrued fees are paid out to the authority.
#[derive(Clone, Copy, Debug, PartialEq, Eq)]
pub struct FeeCollectedEvent {
    pub authority: AccountId,
    pub amount: u64,
}

/// Emitted when the authority proposes (or cancels) a transfer.
#[derive(Clone, Copy, Debug, PartialEq, Eq)]
pub struct AuthorityProposedEvent {
    pub current_authority: AccountId,
    pub proposed_authority: AccountId,
}

/// Emitted when a proposed authority accepts the transfer.
#[derive(Clone, Copy, Debug, PartialEq, Eq)]
pub struct AuthorityAcceptedEvent {
    pub old_authority: AccountId,
    pub new_authority: AccountId,
}

/// Emitted when an empty position is closed.
#[derive(Clone, Copy, Debug, PartialEq, Eq)]
pub struct PositionClosedEvent {
    pub user: AccountId,
}

} // verus!
