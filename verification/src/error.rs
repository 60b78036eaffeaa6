//! The named failures of the program.

use vstd::prelude::*;

verus! {

/// The failures the program reports by name.
#[derive(Clone, Copy, Debug, PartialEq, Eq)]
pub enum ErrorCode {
    /// Share percentages must total 10000 (100%).
    InvalidShareTotal,
    /// Only admin can perform this action.
    Unauthorized,
    /// Configuration is permanently locked.
    ConfigLocked,
    /// Distribution amount must be greater than 0.
    InvalidAmount,
    /// Must have at least one recipient.
    NoRecipients,
    /// Maximum 50 recipients per distribution.
    TooManyRecipients,
    /// Distributed amounts exceed total.
    ExceedsTotal,
    /// Per-role totals do not match configured share ratios.
    ShareMismatch,
    /// Remaining accounts count does not match non-zero recipients.
    RecipientCountMismatch,
    /// Recipient account does not match expected token account.
    RecipientMismatch,
    /// Token account mint does not match SAMU mint.
    InvalidMint,
    /// Token account owner does not match recipient wallet.
    InvalidTokenOwner,
    /// Invalid treasury token account.
    InvalidTreasury,
}

/// Why a settlement did not take place.
#[derive(Clone, Copy, Debug, PartialEq, Eq)]
pub enum DistributionError {
    /// The request broke one of the program's named rules.
    Rejected(ErrorCode),
    /// The recipients' amounts do not add up within 64 bits.
    AggregationOverflow,
    /// A record for this contest and distribution index already exists.
    RecordExists,
    /// The configuration's running counters cannot take this settlement.
    CounterOverflow,
}

} // verus!
