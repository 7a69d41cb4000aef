use vstd::prelude::*;

verus! {

/// Typed, synchronous rejection returned by every vault operation. An
/// operation either fully commits or fails with one of these and mutates
/// nothing.
#[derive(Clone, Copy, Debug, PartialEq, Eq, Structural)]
pub enum VaultError {
    /// The caller is not the identity the operation is restricted to.
    Unauthorized,
    /// Deposits and withdrawals are currently paused.
    VaultPaused,
    /// The deposit would push the pool total past the configured cap.
    DepositCapExceeded,
    /// A positive amount was required.
    ZeroAmount,
    /// The position holds fewer shares than the withdrawal burns.
    InsufficientShares,
    /// Allocation percentages must be non-empty, unique and sum to 100.
    InvalidAllocations,
    /// More allocation entries than the vault supports.
    TooManyAllocations,
    /// The performance fee exceeds the 3000 bps ceiling.
    FeeTooHigh,
    /// An intermediate result exceeded the working precision.
    MathOverflow,
    /// The deposit is below the minimum meaningful amount.
    BelowMinimumDeposit,
    /// The pool has no shares outstanding to redeem.
    NoSharesOutstanding,
    /// The withdrawal would leave an economically meaningless residue.
    DustWithdrawal,
    /// The transfer would leave the custody account under its reserve floor.
    BelowReserveMinimum,
    /// There is no pending authority transfer to accept.
    NoPendingTransfer,
}

impl VaultError {
    /// Human-readable description of the rejection.
    pub fn message(&self) -> &'static str {
        match self {
            VaultError::Unauthorized => "you are not authorized to perform this action",
            VaultError::VaultPaused => "the vault is currently paused",
            VaultError::DepositCapExceeded => "deposit would exceed the vault cap",
            VaultError::ZeroAmount => "amount must be greater than zero",
            VaultError::InsufficientShares => "insufficient shares for withdrawal",
            VaultError::InvalidAllocations => "allocation percentages must sum to 100",
            VaultError::TooManyAllocations => "too many allocations provided",
            VaultError::FeeTooHigh => "performance fee exceeds maximum",
            VaultError::MathOverflow => "arithmetic overflow",
            VaultError::BelowMinimumDeposit => "deposit below minimum amount",
            VaultError::NoSharesOutstanding => "vault has no shares outstanding",
            VaultError::DustWithdrawal => "withdrawal would leave dust amount",
            VaultError::BelowReserveMinimum => "operation would leave vault below its reserve floor",
            VaultError::NoPendingTransfer => "no pending authority transfer to accept",
        }
    }
}

} // verus!
