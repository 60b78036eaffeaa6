//! The life of the split configuration: created once, its shares replaced
//! while it is unlocked, locked for good, handed from one administrator to
//! the next.

use crate::error::ErrorCode;
use crate::events::{AdminTransferred, ConfigInitialized, ConfigLocked, SharesUpdated};
use crate::identity::same_key;
use crate::state::{shares_sum_to_whole, shares_valid, Config};
use anchor_lang::prelude::Pubkey;
use vstd::prelude::*;

verus! {

/// The accounts that a new configuration is made from.
#[derive(Clone, Copy, Debug, PartialEq, Eq)]
pub struct Initialize {
    /// The caller, who becomes the administrator.
    pub admin: Pubkey,
    /// The nominal source of funds.
    pub treasury: Pubkey,
    /// The asset that is distributed.
    pub samu_mint: Pubkey,
    /// The bump seed of the configuration's address.
    pub bump: u8,
}

/// The configuration together with the caller who asks to change it.
#[derive(Clone, Copy, Debug, PartialEq, Eq)]
pub struct AdminOnly {
    pub config: Config,
    /// The caller.
    pub admin: Pubkey,
}

impl Initialize {
    /// The configuration that these accounts and the given shares make:
    /// counters at zero, unlocked.
    pub open spec fn fresh_config(
        &self,
        creator_share: u16,
        voter_share: u16,
        nft_holder_share: u16,
        platform_share: u16,
    ) -> Config {
        Config {
            admin: self.admin,
            treasury: self.treasury,
            samu_mint: self.samu_mint,
            creator_share,
            voter_share,
            nft_holder_share,
            platform_share,
            total_distributions: 0,
            total_distributed_amount: 0,
            is_locked: false,
            bump: self.bump,
        }
    }
}

impl AdminOnly {
    /// Whether the caller is the stored administrator.
    pub open spec fn authorized(&self) -> bool {
        self.config.admin == self.admin
    }

    /// Why the shares cannot be replaced by the given ones, if they cannot.
    pub open spec fn update_failure(
        &self,
        creator_share: u16,
        voter_share: u16,
        nft_holder_share: u16,
        platform_share: u16,
    ) -> Option<ErrorCode> {
        if !self.authorized() {
            Some(ErrorCode::Unauthorized)
        } else if self.config.is_locked {
            Some(ErrorCode::ConfigLocked)
        } else if !shares_valid(creator_share, voter_share, nft_holder_share, platform_share) {
            Some(ErrorCode::InvalidShareTotal)
        } else {
            None
        }
    }

    /// This context with the four shares replaced.
    pub open spec fn with_shares(
        &self,
        creator_share: u16,
        voter_share: u16,
        nft_holder_share: u16,
        platform_share: u16,
    ) -> AdminOnly {
        AdminOnly {
            config: Config {
                creator_share,
                voter_share,
                nft_holder_share,
                platform_share,
                ..self.config
            },
            ..*self
        }
    }

    /// Why the configuration cannot be locked, if it cannot.
    pub open spec fn lock_failure(&self) -> Option<ErrorCode> {
        if !self.authorized() {
            Some(ErrorCode::Unauthorized)
        } else if self.config.is_locked {
            Some(ErrorCode::ConfigLocked)
        } else {
            None
        }
    }

    /// This context with the configuration locked.
    pub open spec fn locked(&self) -> AdminOnly {
        AdminOnly { config: Config { is_locked: true, ..self.config }, ..*self }
    }

    /// This context with `new_admin` as the stored administrator.
    pub open spec fn with_admin(&self, new_admin: Pubkey) -> AdminOnly {
        AdminOnly { config: Config { admin: new_admin, ..self.config }, ..*self }
    }

    /// Tests that the caller is the stored administrator.
    pub fn is_authorized(&self) -> (ok: bool)
        ensures
            ok == self.authorized(),
    {
        same_key(&self.config.admin, &self.admin)
    }
}

/// Creates the configuration, with the caller as its administrator.
///
/// Fails with `InvalidShareTotal` unless the four shares sum to exactly 10000.
pub fn initialize(
    ctx: &Initialize,
    creator_share: u16,
    voter_share: u16,
    nft_holder_share: u16,
    platform_share: u16,
) -> (res: Result<(Config, ConfigInitialized), ErrorCode>)
    ensures
        shares_valid(creator_share, voter_share, nft_holder_share, platform_share) ==> res == Ok::<
            (Config, ConfigInitialized),
            ErrorCode,
        >(
            (
                ctx.fresh_config(creator_share, voter_share, nft_holder_share, platform_share),
                ConfigInitialized {
                    admin: ctx.admin,
                    treasury: ctx.treasury,
                    creator_share,
                    voter_share,
                    nft_holder_share,
                    platform_share,
                },
            ),
        ),
        !shares_valid(creator_share, voter_share, nft_holder_share, platform_share) ==> res
            == Err::<(Config, ConfigInitialized), ErrorCode>(ErrorCode::InvalidShareTotal),
        res matches Ok(made) ==> made.0.wf(),
{
    if !shares_sum_to_whole(creator_share, voter_share, nft_holder_share, platform_share) {
        return Err(ErrorCode::InvalidShareTotal);
    }
    let config = Config {
        admin: ctx.admin,
        treasury: ctx.treasury,
        samu_mint: ctx.samu_mint,
        creator_share,
        voter_share,
        nft_holder_share,
        platform_share,
        total_distributions: 0,
        total_distributed_amount: 0,
        is_locked: false,
        bump: ctx.bump,
    };
    let event = ConfigInitialized {
        admin: config.admin,
        treasury: config.treasury,
        creator_share,
        voter_share,
        nft_holder_share,
        platform_share,
    };
    Ok((config, event))
}

/// Replaces the four shares at once.
///
/// Fails with `Unauthorized` unless the caller is the administrator, with
/// `ConfigLocked` once the configuration is locked, and with
/// `InvalidShareTotal` unless the new shares sum to exactly 10000. On failure
/// nothing changes.
pub fn update_shares(
    ctx: &mut AdminOnly,
    creator_share: u16,
    voter_share: u16,
    nft_holder_share: u16,
    platform_share: u16,
) -> (res: Result<SharesUpdated, ErrorCode>)
    ensures
        match res {
            Ok(event) => {
                &&& old(ctx).update_failure(
                    creator_share,
                    voter_share,
                    nft_holder_share,
                    platform_share,
                ) is None
                &&& *final(ctx) == old(ctx).with_shares(
                    creator_share,
                    voter_share,
                    nft_holder_share,
                    platform_share,
                )
                &&& final(ctx).config.wf()
                &&& event == (SharesUpdated {
                    creator_share,
                    voter_share,
                    nft_holder_share,
                    platform_share,
                })
            },
            Err(code) => {
                &&& old(ctx).update_failure(
                    creator_share,
                    voter_share,
                    nft_holder_share,
                    platform_share,
                ) == Some(code)
                &&& *final(ctx) == *old(ctx)
            },
        },
{
    if !ctx.is_authorized() {
        return Err(ErrorCode::Unauthorized);
    }
    if ctx.config.is_locked {
        return Err(ErrorCode::ConfigLocked);
    }
    if !shares_sum_to_whole(creator_share, voter_share, nft_holder_share, platform_share) {
        return Err(ErrorCode::InvalidShareTotal);
    }
    ctx.config.creator_share = creator_share;
    ctx.config.voter_share = voter_share;
    ctx.config.nft_holder_share = nft_holder_share;
    ctx.config.platform_share = platform_share;
    Ok(SharesUpdated { creator_share, voter_share, nft_holder_share, platform_share })
}

/// Locks the configuration for good.
///
/// Fails with `Unauthorized` unless the caller is the administrator, and
/// with `ConfigLocked` when the configuration is locked already: locking
/// twice is an error. On failure nothing changes.
pub fn lock_config(ctx: &mut AdminOnly) -> (res: Result<ConfigLocked, ErrorCode>)
    ensures
        match res {
            Ok(event) => {
                &&& old(ctx).lock_failure() is None
                &&& *final(ctx) == old(ctx).locked()
                &&& event == (ConfigLocked { admin: old(ctx).config.admin })
            },
            Err(code) => {
                &&& old(ctx).lock_failure() == Some(code)
                &&& *final(ctx) == *old(ctx)
            },
        },
{
    if !ctx.is_authorized() {
        return Err(ErrorCode::Unauthorized);
    }
    if ctx.config.is_locked {
        return Err(ErrorCode::ConfigLocked);
    }
    ctx.config.is_locked = true;
    Ok(ConfigLocked { admin: ctx.config.admin })
}

/// Hands the configuration over to `new_admin`, whoever that is.
///
/// Fails with `Unauthorized` unless the caller is the administrator, and
/// then changes nothing.
pub fn transfer_admin(ctx: &mut AdminOnly, new_admin: Pubkey) -> (res: Result<
    AdminTransferred,
    ErrorCode,
>)
    ensures
        match res {
            Ok(event) => {
                &&& old(ctx).authorized()
                &&& *final(ctx) == old(ctx).with_admin(new_admin)
                &&& event == (AdminTransferred { old_admin: old(ctx).config.admin, new_admin })
            },
            Err(code) => {
                &&& !old(ctx).authorized()
                &&& code == ErrorCode::Unauthorized
                &&& *final(ctx) == *old(ctx)
            },
        },
{
    if !ctx.is_authorized() {
        return Err(ErrorCode::Unauthorized);
    }
    let old_admin = ctx.config.admin;
    ctx.config.admin = new_admin;
    Ok(AdminTransferred { old_admin, new_admin })
}

/// Once the configuration is locked, its shares stay as they are: whoever
/// asks to replace them after a lock, and by whatever shares, is refused. The
/// administrator is refused with `ConfigLocked`, anyone else with
/// `Unauthorized`.
pub proof fn lemma_update_after_lock_fails(
    before: AdminOnly,
    caller: Pubkey,
    creator_share: u16,
    voter_share: u16,
    nft_holder_share: u16,
    platform_share: u16,
)
    requires
        before.lock_failure() is None,
    ensures
        ({
            let after = AdminOnly { admin: caller, ..before.locked() };
            after.update_failure(creator_share, voter_share, nft_holder_share, platform_share)
                == Some(
                if caller == before.config.admin {
                    ErrorCode::ConfigLocked
                } else {
                    ErrorCode::Unauthorized
                },
            )
        }),
{
}

/// While the configuration is unlocked, the administrator can replace the
/// shares by any four that sum to 10000, and the next read gives exactly
/// those four; nothing else in the configuration changes.
pub proof fn lemma_update_before_lock_succeeds(
    ctx: AdminOnly,
    creator_share: u16,
    voter_share: u16,
    nft_holder_share: u16,
    platform_share: u16,
)
    requires
        ctx.authorized(),
        !ctx.config.is_locked,
        shares_valid(creator_share, voter_share, nft_holder_share, platform_share),
    ensures
        ctx.update_failure(creator_share, voter_share, nft_holder_share, platform_share) is None,
        ({
            let after = ctx.with_shares(
                creator_share,
                voter_share,
                nft_holder_share,
                platform_share,
            ).config;
            &&& after.creator_share == creator_share
            &&& after.voter_share == voter_share
            &&& after.nft_holder_share == nft_holder_share
            &&& after.platform_share == platform_share
            &&& after.wf()
            &&& after.admin == ctx.config.admin
            &&& after.treasury == ctx.config.treasury
            &&& after.samu_mint == ctx.config.samu_mint
            &&& after.total_distributions == ctx.config.total_distributions
            &&& after.total_distributed_amount == ctx.config.total_distributed_amount
            &&& after.is_locked == ctx.config.is_locked
        }),
{
}

/// A lock is never undone, and the shares of a locked configuration never
/// change: no operation on the configuration succeeds in replacing them, a
/// second lock fails, and a change of administrator leaves lock and shares
/// as they are.
pub proof fn lemma_lock_is_permanent(
    ctx: AdminOnly,
    new_admin: Pubkey,
    creator_share: u16,
    voter_share: u16,
    nft_holder_share: u16,
    platform_share: u16,
)
    requires
        ctx.config.is_locked,
    ensures
        ctx.update_failure(creator_share, voter_share, nft_holder_share, platform_share) is Some,
        ctx.lock_failure() is Some,
        ctx.with_admin(new_admin).config.is_locked,
        ctx.with_admin(new_admin).config.wf() == ctx.config.wf(),
{
}

/// The shares of a configuration sum to 10000 from its creation on: every
/// operation that succeeds leaves them so.
pub proof fn lemma_shares_stay_whole(
    ctx: AdminOnly,
    new_admin: Pubkey,
    creator_share: u16,
    voter_share: u16,
    nft_holder_share: u16,
    platform_share: u16,
)
    requires
        ctx.config.wf(),
    ensures
        ctx.update_failure(creator_share, voter_share, nft_holder_share, platform_share)
            is None ==> ctx.with_shares(
            creator_share,
            voter_share,
            nft_holder_share,
            platform_share,
        ).config.wf(),
        ctx.locked().config.wf(),
        ctx.with_admin(new_admin).config.wf(),
{
}

} // verus!
