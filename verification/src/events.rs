//! What the program tells its observers.

use anchor_lang::prelude::Pubkey;
use vstd::prelude::*;

verus! {

/// A configuration was created.
#[derive(Clone, Copy, Debug, PartialEq, Eq)]
pub struct ConfigInitialized {
    pub admin: Pubkey,
    pub treasury: Pubkey,
    pub creator_share: u16,
    pub voter_share: u16,
    pub nft_holder_share: u16,
    pub platform_share: u16,
}

/// The shares were replaced.
#[derive(Clone, Copy, Debug, PartialEq, Eq)]
pub struct SharesUpdated {
    pub creator_share: u16,
    pub voter_share: u16,
    pub nft_holder_share: u16,
    pub platform_share: u16,
}

/// The configuration was locked for good.
#[derive(Clone, Copy, Debug, PartialEq, Eq)]
pub struct ConfigLocked {
    pub admin: Pubkey,
}

/// A settlement took place.
#[derive(Clone, Copy, Debug, PartialEq, Eq)]
pub struct RewardsDistributed {
    pub contest_id: u64,
    pub distribution_index: u8,
    pub total_amount: u64,
    pub distributed_total: u64,
    pub creator_total: u64,
    pub voter_total: u64,
    pub nft_holder_total: u64,
    pub platform_total: u64,
    pub recipient_count: u16,
    pub timestamp: i64,
}

/// The administrator handed over to another.
#[derive(Clone, Copy, Debug, PartialEq, Eq)]
pub struct AdminTransferred {
    pub old_admin: Pubkey,
    pub new_admin: Pubkey,
}

} // verus!
