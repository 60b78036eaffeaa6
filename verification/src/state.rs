//! The persistent and transient data of the program.

use anchor_lang::prelude::Pubkey;
use vstd::prelude::*;

verus! {

/// One whole, in basis points.
pub const BPS_DENOMINATOR: u64 = 10000;

/// The most recipients one settlement may name.
pub const MAX_RECIPIENTS: usize = 50;

/// The payout category of a recipient.
#[derive(Clone, Copy, Debug, PartialEq, Eq)]
pub enum Role {
    Creator,
    Voter,
    NftHolder,
    Platform,
}

/// One intended payee of a settlement.
#[derive(Clone, Copy, Debug, PartialEq, Eq)]
pub struct Recipient {
    /// The beneficiary.
    pub wallet: Pubkey,
    /// The token account that receives the funds.
    pub token_account: Pubkey,
    pub role: Role,
    pub amount: u64,
}

/// Whether four shares make up exactly one whole.
pub open spec fn shares_valid(creator: u16, voter: u16, nft_holder: u16, platform: u16) -> bool {
    creator + voter + nft_holder + platform == BPS_DENOMINATOR
}

/// Decides `shares_valid` without overflow.
pub fn shares_sum_to_whole(creator: u16, voter: u16, nft_holder: u16, platform: u16) -> (ok: bool)
    ensures
        ok == shares_valid(creator, voter, nft_holder, platform),
{
    let sum: u64 = creator as u64 + voter as u64 + nft_holder as u64 + platform as u64;
    sum == BPS_DENOMINATOR
}

/// The split configuration and its running counters.
#[derive(Clone, Copy, Debug, PartialEq, Eq)]
pub struct Config {
    pub admin: Pubkey,
    pub treasury: Pubkey,
    pub samu_mint: Pubkey,
    pub creator_share: u16,
    pub voter_share: u16,
    pub nft_holder_share: u16,
    pub platform_share: u16,
    pub total_distributions: u64,
    pub total_distributed_amount: u64,
    pub is_locked: bool,
    pub bump: u8,
}

impl Config {
    /// The invariant of a configuration: its four shares make up one whole.
    pub open spec fn wf(&self) -> bool {
        shares_valid(
            self.creator_share,
            self.voter_share,
            self.nft_holder_share,
            self.platform_share,
        )
    }

    /// The share configured for `role`, in basis points.
    pub open spec fn share_of(&self, role: Role) -> u16 {
        match role {
            Role::Creator => self.creator_share,
            Role::Voter => self.voter_share,
            Role::NftHolder => self.nft_holder_share,
            Role::Platform => self.platform_share,
        }
    }

    /// Decides the invariant.
    pub fn is_well_formed(&self) -> (ok: bool)
        ensures
            ok == self.wf(),
    {
        shares_sum_to_whole(
            self.creator_share,
            self.voter_share,
            self.nft_holder_share,
            self.platform_share,
        )
    }

    /// The share configured for `role`, in basis points.
    pub fn share(&self, role: Role) -> (bps: u16)
        ensures
            bps == self.share_of(role),
    {
        match role {
            Role::Creator => self.creator_share,
            Role::Voter => self.voter_share,
            Role::NftHolder => self.nft_holder_share,
            Role::Platform => self.platform_share,
        }
    }
}

/// The audit entry of one settlement.
#[derive(Clone, Copy, Debug, PartialEq, Eq)]
pub struct DistributionRecord {
    pub contest_id: u64,
    pub distribution_index: u8,
    pub total_amount: u64,
    pub distributed_total: u64,
    pub creator_total: u64,
    pub voter_total: u64,
    pub nft_holder_total: u64,
    pub platform_total: u64,
    pub recipient_count: u16,
    pub timestamp: i64,
    pub admin: Pubkey,
    pub bump: u8,
}

impl DistributionRecord {
    /// The pair that addresses the record.
    pub open spec fn key(&self) -> (u64, u8) {
        (self.contest_id, self.distribution_index)
    }
}

} // verus!
