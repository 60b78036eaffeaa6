//! Settlement validation for a token reward distribution program.
//!
//! A pool of funds is split among recipients tagged by role. The split is
//! held against a configured ratio within a tolerance band, the recipients
//! are reconciled with the destination accounts supplied for them, and each
//! settlement leaves one audit record behind. The configuration of the ratio
//! has a life of its own: created once, changed while unlocked, locked for
//! good, under a single administrator.

pub mod aggregate;
pub mod distribution;
pub mod error;
pub mod events;
pub mod governance;
pub mod identity;
pub mod ledger;
pub mod state;
pub mod tolerance;

pub use aggregate::{aggregate, Aggregate};
pub use distribution::{
    distribute_rewards, reconcile, validate_shape, validate_shares, DistributeRewards, Settlement,
    TokenAccount, Transfer,
};
pub use error::{DistributionError, ErrorCode};
pub use events::{
    AdminTransferred, ConfigInitialized, ConfigLocked, RewardsDistributed, SharesUpdated,
};
pub use governance::{
    initialize, lock_config, transfer_admin, update_shares, AdminOnly, Initialize,
};
pub use ledger::AuditLedger;
pub use state::{
    shares_sum_to_whole, Config, DistributionRecord, Recipient, Role, BPS_DENOMINATOR,
    MAX_RECIPIENTS,
};
pub use tolerance::{expected_amount, tolerance_for, within_tolerance, TOLERANCE_BPS};
