use anchor_lang::prelude::Pubkey;
use samu_rewards::{
    initialize, lock_config, transfer_admin, update_shares, AdminOnly, AdminTransferred, Config,
    ConfigInitialized, ConfigLocked, ErrorCode, Initialize, SharesUpdated,
};

fn key(n: u8) -> Pubkey {
    Pubkey::new_from_array([n; 32])
}

fn accounts() -> Initialize {
    Initialize { admin: key(1), treasury: key(2), samu_mint: key(3), bump: 254 }
}

fn fresh() -> Config {
    initialize(&accounts(), 5000, 3000, 1500, 500).unwrap().0
}

#[test]
fn initialize_returns_the_shares_it_was_given() {
    let (config, event) = initialize(&accounts(), 5000, 3000, 1500, 500).unwrap();
    assert_eq!(
        config,
        Config {
            admin: key(1),
            treasury: key(2),
            samu_mint: key(3),
            creator_share: 5000,
            voter_share: 3000,
            nft_holder_share: 1500,
            platform_share: 500,
            total_distributions: 0,
            total_distributed_amount: 0,
            is_locked: false,
            bump: 254,
        }
    );
    assert_eq!(
        event,
        ConfigInitialized {
            admin: key(1),
            treasury: key(2),
            creator_share: 5000,
            voter_share: 3000,
            nft_holder_share: 1500,
            platform_share: 500,
        }
    );
    assert!(config.is_well_formed());
}

#[test]
fn initialize_accepts_a_single_role_taking_everything() {
    let (config, _) = initialize(&accounts(), 0, 0, 0, 10000).unwrap();
    assert_eq!(
        (config.creator_share, config.voter_share, config.nft_holder_share, config.platform_share),
        (0, 0, 0, 10000)
    );
}

#[test]
fn initialize_rejects_shares_below_the_whole() {
    assert_eq!(initialize(&accounts(), 5000, 3000, 1500, 499), Err(ErrorCode::InvalidShareTotal));
    assert_eq!(initialize(&accounts(), 0, 0, 0, 0), Err(ErrorCode::InvalidShareTotal));
}

#[test]
fn initialize_rejects_shares_above_the_whole() {
    assert_eq!(initialize(&accounts(), 5000, 3000, 1500, 501), Err(ErrorCode::InvalidShareTotal));
    assert_eq!(
        initialize(&accounts(), 10000, 10000, 10000, 10000),
        Err(ErrorCode::InvalidShareTotal)
    );
}

#[test]
fn initialize_rejects_a_sum_that_only_wraps_to_the_whole() {
    // 65535 + 10001 is 10000 modulo 2^16.
    assert_eq!(initialize(&accounts(), 65535, 10001, 0, 0), Err(ErrorCode::InvalidShareTotal));
    assert_eq!(
        initialize(&accounts(), 65535, 65535, 65535, 10003),
        Err(ErrorCode::InvalidShareTotal)
    );
}

#[test]
fn update_shares_before_lock_is_visible_on_next_read() {
    let mut ctx = AdminOnly { config: fresh(), admin: key(1) };
    let event = update_shares(&mut ctx, 2500, 2500, 2500, 2500).unwrap();
    assert_eq!(
        event,
        SharesUpdated {
            creator_share: 2500,
            voter_share: 2500,
            nft_holder_share: 2500,
            platform_share: 2500,
        }
    );
    assert_eq!(
        ctx.config,
        Config {
            creator_share: 2500,
            voter_share: 2500,
            nft_holder_share: 2500,
            platform_share: 2500,
            ..fresh()
        }
    );
    assert_eq!(ctx.admin, key(1));
}

#[test]
fn update_shares_twice_keeps_the_last() {
    let mut ctx = AdminOnly { config: fresh(), admin: key(1) };
    update_shares(&mut ctx, 2500, 2500, 2500, 2500).unwrap();
    update_shares(&mut ctx, 10000, 0, 0, 0).unwrap();
    assert_eq!(ctx.config.creator_share, 10000);
    assert_eq!(ctx.config.voter_share, 0);
    assert_eq!(ctx.config.nft_holder_share, 0);
    assert_eq!(ctx.config.platform_share, 0);
}

#[test]
fn update_shares_rejects_a_wrong_total_and_changes_nothing() {
    let mut ctx = AdminOnly { config: fresh(), admin: key(1) };
    assert_eq!(update_shares(&mut ctx, 5000, 3000, 1500, 501), Err(ErrorCode::InvalidShareTotal));
    assert_eq!(update_shares(&mut ctx, 65535, 10001, 0, 0), Err(ErrorCode::InvalidShareTotal));
    assert_eq!(ctx.config, fresh());
}

#[test]
fn update_shares_after_lock_fails_with_config_locked() {
    let mut ctx = AdminOnly { config: fresh(), admin: key(1) };
    lock_config(&mut ctx).unwrap();
    let locked = ctx.config;
    assert_eq!(update_shares(&mut ctx, 2500, 2500, 2500, 2500), Err(ErrorCode::ConfigLocked));
    assert_eq!(update_shares(&mut ctx, 5000, 3000, 1500, 500), Err(ErrorCode::ConfigLocked));
    assert_eq!(ctx.config, locked);
    assert_eq!(ctx.config.creator_share, 5000);
}

#[test]
fn update_shares_reports_the_lock_before_a_wrong_total() {
    let mut ctx = AdminOnly { config: fresh(), admin: key(1) };
    lock_config(&mut ctx).unwrap();
    assert_eq!(update_shares(&mut ctx, 1, 1, 1, 1), Err(ErrorCode::ConfigLocked));
}

#[test]
fn update_shares_is_for_the_admin_only() {
    let mut ctx = AdminOnly { config: fresh(), admin: key(9) };
    assert_eq!(update_shares(&mut ctx, 2500, 2500, 2500, 2500), Err(ErrorCode::Unauthorized));
    assert_eq!(ctx.config, fresh());
}

#[test]
fn a_stranger_is_unauthorized_whatever_else_is_wrong() {
    let mut ctx = AdminOnly { config: fresh(), admin: key(1) };
    lock_config(&mut ctx).unwrap();
    ctx.admin = key(9);
    assert_eq!(update_shares(&mut ctx, 1, 1, 1, 1), Err(ErrorCode::Unauthorized));
    assert_eq!(lock_config(&mut ctx), Err(ErrorCode::Unauthorized));
}

#[test]
fn lock_config_sets_the_lock_and_nothing_else() {
    let mut ctx = AdminOnly { config: fresh(), admin: key(1) };
    assert_eq!(lock_config(&mut ctx), Ok(ConfigLocked { admin: key(1) }));
    assert_eq!(ctx.config, Config { is_locked: true, ..fresh() });
}

#[test]
fn lock_config_twice_is_an_error() {
    let mut ctx = AdminOnly { config: fresh(), admin: key(1) };
    lock_config(&mut ctx).unwrap();
    assert_eq!(lock_config(&mut ctx), Err(ErrorCode::ConfigLocked));
    assert!(ctx.config.is_locked);
}

#[test]
fn lock_config_is_for_the_admin_only() {
    let mut ctx = AdminOnly { config: fresh(), admin: key(9) };
    assert_eq!(lock_config(&mut ctx), Err(ErrorCode::Unauthorized));
    assert!(!ctx.config.is_locked);
}

#[test]
fn transfer_admin_replaces_the_admin() {
    let mut ctx = AdminOnly { config: fresh(), admin: key(1) };
    assert_eq!(
        transfer_admin(&mut ctx, key(7)),
        Ok(AdminTransferred { old_admin: key(1), new_admin: key(7) })
    );
    assert_eq!(ctx.config, Config { admin: key(7), ..fresh() });
    // The caller is still the one who was administrator, and is so no longer.
    assert_eq!(ctx.admin, key(1));
    assert_eq!(update_shares(&mut ctx, 2500, 2500, 2500, 2500), Err(ErrorCode::Unauthorized));
    ctx.admin = key(7);
    assert!(update_shares(&mut ctx, 2500, 2500, 2500, 2500).is_ok());
}

#[test]
fn transfer_admin_is_for_the_admin_only() {
    let mut ctx = AdminOnly { config: fresh(), admin: key(9) };
    assert_eq!(transfer_admin(&mut ctx, key(9)), Err(ErrorCode::Unauthorized));
    assert_eq!(ctx.config, fresh());
}

#[test]
fn transfer_admin_works_on_a_locked_configuration_and_keeps_the_lock() {
    let mut ctx = AdminOnly { config: fresh(), admin: key(1) };
    lock_config(&mut ctx).unwrap();
    transfer_admin(&mut ctx, key(7)).unwrap();
    assert!(ctx.config.is_locked);
    ctx.admin = key(7);
    assert_eq!(update_shares(&mut ctx, 2500, 2500, 2500, 2500), Err(ErrorCode::ConfigLocked));
    assert_eq!(lock_config(&mut ctx), Err(ErrorCode::ConfigLocked));
}

#[test]
fn transfer_admin_to_oneself_changes_nothing() {
    let mut ctx = AdminOnly { config: fresh(), admin: key(1) };
    assert_eq!(
        transfer_admin(&mut ctx, key(1)),
        Ok(AdminTransferred { old_admin: key(1), new_admin: key(1) })
    );
    assert_eq!(ctx.config, fresh());
}

#[test]
fn well_formedness_is_decided_on_the_true_sum() {
    let mut config = fresh();
    assert!(config.is_well_formed());
    config.platform_share = 501;
    assert!(!config.is_well_formed());
    config.creator_share = 65535;
    config.voter_share = 10001;
    config.nft_holder_share = 0;
    config.platform_share = 0;
    assert!(!config.is_well_formed());
}
