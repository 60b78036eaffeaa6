use anchor_lang::prelude::Pubkey;
use samu_rewards::{AuditLedger, DistributionError, DistributionRecord};

fn record(contest_id: u64, distribution_index: u8, total_amount: u64) -> DistributionRecord {
    DistributionRecord {
        contest_id,
        distribution_index,
        total_amount,
        distributed_total: total_amount,
        creator_total: total_amount,
        voter_total: 0,
        nft_holder_total: 0,
        platform_total: 0,
        recipient_count: 1,
        timestamp: 1_700_000_000,
        admin: Pubkey::new_from_array([1; 32]),
        bump: 255,
    }
}

#[test]
fn a_new_ledger_is_empty() {
    let ledger = AuditLedger::new();
    assert_eq!(ledger.len(), 0);
    assert!(!ledger.contains(0, 0));
    assert_eq!(ledger.get(0, 0), None);
}

#[test]
fn a_created_record_is_found_under_its_pair() {
    let mut ledger = AuditLedger::new();
    assert_eq!(ledger.create(record(7, 1, 100)), Ok(()));
    assert_eq!(ledger.len(), 1);
    assert!(ledger.contains(7, 1));
    assert_eq!(ledger.get(7, 1), Some(record(7, 1, 100)));
    assert!(!ledger.contains(7, 0));
    assert!(!ledger.contains(1, 7));
    assert_eq!(ledger.get(7, 2), None);
}

#[test]
fn a_pair_takes_one_record_only() {
    let mut ledger = AuditLedger::new();
    ledger.create(record(7, 1, 100)).unwrap();
    assert_eq!(ledger.create(record(7, 1, 100)), Err(DistributionError::RecordExists));
    assert_eq!(ledger.create(record(7, 1, 999)), Err(DistributionError::RecordExists));
    assert_eq!(ledger.len(), 1);
    assert_eq!(ledger.get(7, 1), Some(record(7, 1, 100)));
}

#[test]
fn pairs_that_differ_in_one_part_are_different() {
    let mut ledger = AuditLedger::new();
    ledger.create(record(7, 1, 100)).unwrap();
    ledger.create(record(7, 2, 200)).unwrap();
    ledger.create(record(8, 1, 300)).unwrap();
    assert_eq!(ledger.len(), 3);
    assert_eq!(ledger.get(7, 1), Some(record(7, 1, 100)));
    assert_eq!(ledger.get(7, 2), Some(record(7, 2, 200)));
    assert_eq!(ledger.get(8, 1), Some(record(8, 1, 300)));
    assert_eq!(ledger.create(record(8, 1, 1)), Err(DistributionError::RecordExists));
}
