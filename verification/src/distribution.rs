//! Settling a reward pool: validate the proposed split, reconcile it with
//! the destination accounts, and commit the audit record and the counters.

use crate::aggregate::{
    aggregate, aggregation_failure, amount_total, lemma_paid_carry_totals, paid_recipients,
    role_total, Aggregate,
};
use crate::error::{DistributionError, ErrorCode};
use crate::events::RewardsDistributed;
use crate::identity::same_key;
use crate::ledger::{has_record, AuditLedger};
use crate::state::{Config, DistributionRecord, Recipient, Role, MAX_RECIPIENTS};
use crate::tolerance::{
    expected_amount, in_band, scaled, tolerance_for, tolerance_of, within_tolerance,
};
use anchor_lang::prelude::Pubkey;
use vstd::prelude::*;

verus! {

/// A token account, as resolved from its address.
#[derive(Clone, Copy, Debug, PartialEq, Eq)]
pub struct TokenAccount {
    /// The account's own address.
    pub key: Pubkey,
    /// The asset the account holds.
    pub mint: Pubkey,
    /// The identity the account belongs to.
    pub owner: Pubkey,
}

/// One payment out of the pool.
#[derive(Clone, Copy, Debug, PartialEq, Eq)]
pub struct Transfer {
    /// The token account that is paid.
    pub to: Pubkey,
    pub amount: u64,
}

/// What a settlement commits to.
#[derive(Debug, PartialEq, Eq)]
pub struct Settlement {
    /// The audit entry, as it was appended to the ledger.
    pub record: DistributionRecord,
    /// The notice for observers.
    pub event: RewardsDistributed,
    /// The payments to make, in the order of the paid recipients.
    pub transfers: Vec<Transfer>,
}

/// The accounts and ambient values of one settlement.
#[derive(Debug)]
pub struct DistributeRewards {
    pub config: Config,
    /// The address under which `config` is stored; the pool must belong to it.
    pub config_key: Pubkey,
    /// The caller.
    pub admin: Pubkey,
    /// The store that takes the audit record.
    pub ledger: AuditLedger,
    /// The bump seed of the record's address.
    pub record_bump: u8,
    /// The pool the payments are made from.
    pub treasury_token_account: TokenAccount,
    /// The destination accounts, one for each paid recipient, in their order.
    pub remaining_accounts: Vec<TokenAccount>,
    /// The time of the settlement.
    pub timestamp: i64,
}

/// The first failure of two: `first` if there is one, else `second`.
pub open spec fn or_else(
    first: Option<DistributionError>,
    second: Option<DistributionError>,
) -> Option<DistributionError> {
    if first is Some {
        first
    } else {
        second
    }
}

/// A named failure, as a reason why a settlement did not take place.
pub open spec fn rejected(failure: Option<ErrorCode>) -> Option<DistributionError> {
    match failure {
        Some(code) => Some(DistributionError::Rejected(code)),
        None => None,
    }
}

/// What keeps a request of this size from being taken up at all.
pub open spec fn shape_failure(total_amount: u64, rs: Seq<Recipient>) -> Option<ErrorCode> {
    if total_amount == 0 {
        Some(ErrorCode::InvalidAmount)
    } else if rs.len() == 0 {
        Some(ErrorCode::NoRecipients)
    } else if rs.len() > MAX_RECIPIENTS {
        Some(ErrorCode::TooManyRecipients)
    } else {
        None
    }
}

/// What is wrong with the sum of the amounts, if anything.
pub open spec fn sum_failure(total_amount: u64, rs: Seq<Recipient>) -> Option<DistributionError> {
    if aggregation_failure(rs) is Some {
        aggregation_failure(rs)
    } else if amount_total(rs) > total_amount {
        Some(DistributionError::Rejected(ErrorCode::ExceedsTotal))
    } else {
        None
    }
}

/// Whether the total of `role` lies within the tolerance of its share of the pool.
pub open spec fn role_in_band(
    config: Config,
    total_amount: u64,
    rs: Seq<Recipient>,
    role: Role,
) -> bool {
    in_band(
        role_total(rs, role),
        scaled(total_amount as int, config.share_of(role) as int),
        tolerance_of(total_amount as int),
    )
}

/// Whether every role's total lies within the tolerance of its share of the pool.
pub open spec fn shares_respected(config: Config, total_amount: u64, rs: Seq<Recipient>) -> bool {
    &&& role_in_band(config, total_amount, rs, Role::Creator)
    &&& role_in_band(config, total_amount, rs, Role::Voter)
    &&& role_in_band(config, total_amount, rs, Role::NftHolder)
    &&& role_in_band(config, total_amount, rs, Role::Platform)
}

/// What is wrong with the split, if anything.
pub open spec fn share_failure(config: Config, total_amount: u64, rs: Seq<Recipient>) -> Option<
    ErrorCode,
> {
    if shares_respected(config, total_amount, rs) {
        None
    } else {
        Some(ErrorCode::ShareMismatch)
    }
}

/// Whether each destination account is the one its paid recipient names,
/// position by position.
pub open spec fn positions_match(paid: Seq<Recipient>, accounts: Seq<TokenAccount>) -> bool {
    forall|i: int|
        0 <= i < paid.len() ==> (#[trigger] accounts[i]).key == (#[trigger] paid[i]).token_account
}

/// The first failure of a destination account, from position `from` on, to
/// hold `mint` and to belong to its recipient's wallet.
pub open spec fn custody_failure(
    mint: Pubkey,
    paid: Seq<Recipient>,
    accounts: Seq<TokenAccount>,
    from: int,
) -> Option<ErrorCode>
    decreases paid.len() - from,
{
    if from < 0 || from >= paid.len() {
        None
    } else if accounts[from].mint != mint {
        Some(ErrorCode::InvalidMint)
    } else if accounts[from].owner != paid[from].wallet {
        Some(ErrorCode::InvalidTokenOwner)
    } else {
        custody_failure(mint, paid, accounts, from + 1)
    }
}

/// What keeps the destination accounts from standing for the paid recipients.
pub open spec fn reconciliation_failure(
    mint: Pubkey,
    paid: Seq<Recipient>,
    accounts: Seq<TokenAccount>,
) -> Option<ErrorCode> {
    if accounts.len() != paid.len() {
        Some(ErrorCode::RecipientCountMismatch)
    } else if !positions_match(paid, accounts) {
        Some(ErrorCode::RecipientMismatch)
    } else {
        custody_failure(mint, paid, accounts, 0)
    }
}

/// What keeps a validated settlement from being committed.
pub open spec fn commit_failure(
    config: Config,
    ledger: Seq<DistributionRecord>,
    contest_id: u64,
    distribution_index: u8,
    distributed: int,
) -> Option<DistributionError> {
    if has_record(ledger, contest_id, distribution_index) {
        Some(DistributionError::RecordExists)
    } else if config.total_distributions + 1 > u64::MAX || config.total_distributed_amount
        + distributed > u64::MAX {
        Some(DistributionError::CounterOverflow)
    } else {
        None
    }
}

/// The payment owed to a paid recipient.
pub open spec fn transfer_to(r: Recipient) -> Transfer {
    Transfer { to: r.token_account, amount: r.amount }
}

/// The payments owed to the recipients `rs`, in their order.
pub open spec fn transfers_for(rs: Seq<Recipient>) -> Seq<Transfer> {
    paid_recipients(rs).map_values(|r: Recipient| transfer_to(r))
}

/// The notice that goes with an audit entry.
pub open spec fn event_of(record: DistributionRecord) -> RewardsDistributed {
    RewardsDistributed {
        contest_id: record.contest_id,
        distribution_index: record.distribution_index,
        total_amount: record.total_amount,
        distributed_total: record.distributed_total,
        creator_total: record.creator_total,
        voter_total: record.voter_total,
        nft_holder_total: record.nft_holder_total,
        platform_total: record.platform_total,
        recipient_count: record.recipient_count,
        timestamp: record.timestamp,
    }
}

/// The configuration after a settlement of `distributed`: one more
/// distribution, that much more distributed, nothing else changed.
pub open spec fn config_after(config: Config, distributed: int) -> Config {
    Config {
        total_distributions: (config.total_distributions + 1) as u64,
        total_distributed_amount: (config.total_distributed_amount + distributed) as u64,
        ..config
    }
}

impl DistributeRewards {
    /// What is wrong with the caller or the pool, if anything: the caller
    /// must be the administrator, and the pool must hold the reward asset
    /// and belong to the configuration.
    pub open spec fn account_failure(&self) -> Option<ErrorCode> {
        if self.config.admin != self.admin {
            Some(ErrorCode::Unauthorized)
        } else if self.treasury_token_account.mint != self.config.samu_mint {
            Some(ErrorCode::InvalidMint)
        } else if self.treasury_token_account.owner != self.config_key {
            Some(ErrorCode::InvalidTreasury)
        } else {
            None
        }
    }

    /// What is wrong with the request, if anything: the first test that
    /// fails, in the order in which they are made. Nothing here depends on
    /// the ledger or on the counters.
    pub open spec fn validation_failure(
        &self,
        total_amount: u64,
        rs: Seq<Recipient>,
    ) -> Option<DistributionError> {
        or_else(
            rejected(self.account_failure()),
            or_else(
                rejected(shape_failure(total_amount, rs)),
                or_else(
                    sum_failure(total_amount, rs),
                    or_else(
                        rejected(share_failure(self.config, total_amount, rs)),
                        rejected(
                            reconciliation_failure(
                                self.config.samu_mint,
                                paid_recipients(rs),
                                self.remaining_accounts@,
                            ),
                        ),
                    ),
                ),
            ),
        )
    }

    /// Why the settlement of `rs` out of a pool of `total_amount` does not
    /// take place, if it does not: what is wrong with the request, else what
    /// keeps it from being committed.
    pub open spec fn rejection(
        &self,
        contest_id: u64,
        distribution_index: u8,
        total_amount: u64,
        rs: Seq<Recipient>,
    ) -> Option<DistributionError> {
        or_else(
            self.validation_failure(total_amount, rs),
            commit_failure(
                self.config,
                self.ledger@,
                contest_id,
                distribution_index,
                amount_total(rs),
            ),
        )
    }

    /// The audit entry of the settlement of `rs` out of a pool of `total_amount`.
    pub open spec fn record_of(
        &self,
        contest_id: u64,
        distribution_index: u8,
        total_amount: u64,
        rs: Seq<Recipient>,
    ) -> DistributionRecord {
        DistributionRecord {
            contest_id,
            distribution_index,
            total_amount,
            distributed_total: amount_total(rs) as u64,
            creator_total: role_total(rs, Role::Creator) as u64,
            voter_total: role_total(rs, Role::Voter) as u64,
            nft_holder_total: role_total(rs, Role::NftHolder) as u64,
            platform_total: role_total(rs, Role::Platform) as u64,
            recipient_count: paid_recipients(rs).len() as u16,
            timestamp: self.timestamp,
            admin: self.admin,
            bump: self.record_bump,
        }
    }

    /// Whether `after` is this context once `record` is committed: the
    /// counters moved on, the record appended, nothing else changed.
    pub open spec fn committed(&self, after: DistributeRewards, record: DistributionRecord) -> bool {
        &&& after.config == config_after(self.config, record.distributed_total as int)
        &&& after.ledger@ == self.ledger@.push(record)
        &&& after.config_key == self.config_key
        &&& after.admin == self.admin
        &&& after.record_bump == self.record_bump
        &&& after.treasury_token_account == self.treasury_token_account
        &&& after.remaining_accounts == self.remaining_accounts
        &&& after.timestamp == self.timestamp
    }

    /// Tests the caller and the pool.
    pub fn validate_accounts(&self) -> (res: Result<(), ErrorCode>)
        ensures
            match res {
                Ok(()) => self.account_failure() is None,
                Err(code) => self.account_failure() == Some(code),
            },
    {
        if !same_key(&self.config.admin, &self.admin) {
            Err(ErrorCode::Unauthorized)
        } else if !same_key(&self.treasury_token_account.mint, &self.config.samu_mint) {
            Err(ErrorCode::InvalidMint)
        } else if !same_key(&self.treasury_token_account.owner, &self.config_key) {
            Err(ErrorCode::InvalidTreasury)
        } else {
            Ok(())
        }
    }
}

/// Tests the size of a request: a pool above zero, and between one and fifty
/// recipients.
pub fn validate_shape(total_amount: u64, recipients: &Vec<Recipient>) -> (res: Result<
    (),
    ErrorCode,
>)
    ensures
        match res {
            Ok(()) => shape_failure(total_amount, recipients@) is None,
            Err(code) => shape_failure(total_amount, recipients@) == Some(code),
        },
{
    if total_amount == 0 {
        Err(ErrorCode::InvalidAmount)
    } else if recipients.len() == 0 {
        Err(ErrorCode::NoRecipients)
    } else if recipients.len() > MAX_RECIPIENTS {
        Err(ErrorCode::TooManyRecipients)
    } else {
        Ok(())
    }
}

/// Tests one role's total against its share of the pool.
fn role_within_band(config: &Config, total_amount: u64, role: Role, actual: u64) -> (ok: bool)
    requires
        config.wf(),
    ensures
        ok == in_band(
            actual as int,
            scaled(total_amount as int, config.share_of(role) as int),
            tolerance_of(total_amount as int),
        ),
{
    let expected = expected_amount(total_amount, config.share(role));
    let tolerance = tolerance_for(total_amount);
    within_tolerance(actual, expected, tolerance)
}

/// Tests the four role totals against the configured shares of the pool.
pub fn validate_shares(config: &Config, total_amount: u64, sums: &Aggregate) -> (res: Result<
    (),
    ErrorCode,
>)
    requires
        config.wf(),
    ensures
        res is Ok <==> {
            &&& in_band(
                sums.creator_total as int,
                scaled(total_amount as int, config.creator_share as int),
                tolerance_of(total_amount as int),
            )
            &&& in_band(
                sums.voter_total as int,
                scaled(total_amount as int, config.voter_share as int),
                tolerance_of(total_amount as int),
            )
            &&& in_band(
                sums.nft_holder_total as int,
                scaled(total_amount as int, config.nft_holder_share as int),
                tolerance_of(total_amount as int),
            )
            &&& in_band(
                sums.platform_total as int,
                scaled(total_amount as int, config.platform_share as int),
                tolerance_of(total_amount as int),
            )
        },
        res matches Err(code) ==> code == ErrorCode::ShareMismatch,
{
    if !role_within_band(config, total_amount, Role::Creator, sums.creator_total) {
        Err(ErrorCode::ShareMismatch)
    } else if !role_within_band(config, total_amount, Role::Voter, sums.voter_total) {
        Err(ErrorCode::ShareMismatch)
    } else if !role_within_band(config, total_amount, Role::NftHolder, sums.nft_holder_total) {
        Err(ErrorCode::ShareMismatch)
    } else if !role_within_band(config, total_amount, Role::Platform, sums.platform_total) {
        Err(ErrorCode::ShareMismatch)
    } else {
        Ok(())
    }
}

/// Holds the destination accounts against the paid recipients: as many
/// accounts as recipients, each the account its recipient names, then each
/// holding `mint` and belonging to its recipient's wallet.
pub fn reconcile(mint: &Pubkey, paid: &Vec<Recipient>, accounts: &Vec<TokenAccount>) -> (res:
    Result<(), ErrorCode>)
    ensures
        match res {
            Ok(()) => reconciliation_failure(*mint, paid@, accounts@) is None,
            Err(code) => reconciliation_failure(*mint, paid@, accounts@) == Some(code),
        },
{
    if accounts.len() != paid.len() {
        return Err(ErrorCode::RecipientCountMismatch);
    }
    let mut i: usize = 0;
    while i < paid.len()
        invariant
            accounts@.len() == paid@.len(),
            0 <= i <= paid@.len(),
            forall|j: int|
                0 <= j < i ==> (#[trigger] accounts@[j]).key == (#[trigger] paid@[j]).token_account,
        decreases paid@.len() - i,
    {
        if !same_key(&accounts[i].key, &paid[i].token_account) {
            return Err(ErrorCode::RecipientMismatch);
        }
        i += 1;
    }
    let mut i: usize = 0;
    while i < paid.len()
        invariant
            accounts@.len() == paid@.len(),
            0 <= i <= paid@.len(),
            positions_match(paid@, accounts@),
            custody_failure(*mint, paid@, accounts@, 0) == custody_failure(
                *mint,
                paid@,
                accounts@,
                i as int,
            ),
        decreases paid@.len() - i,
    {
        if !same_key(&accounts[i].mint, mint) {
            return Err(ErrorCode::InvalidMint);
        }
        if !same_key(&accounts[i].owner, &paid[i].wallet) {
            return Err(ErrorCode::InvalidTokenOwner);
        }
        i += 1;
    }
    Ok(())
}

/// Writes out the payment owed to each paid recipient.
fn plan_transfers(paid: &Vec<Recipient>) -> (transfers: Vec<Transfer>)
    ensures
        transfers@ == paid@.map_values(|r: Recipient| transfer_to(r)),
{
    let mut transfers: Vec<Transfer> = Vec::new();
    let mut i: usize = 0;
    while i < paid.len()
        invariant
            0 <= i <= paid@.len(),
            transfers@ == paid@.take(i as int).map_values(|r: Recipient| transfer_to(r)),
        decreases paid@.len() - i,
    {
        let r = paid[i];
        transfers.push(Transfer { to: r.token_account, amount: r.amount });
        proof {
            assert(paid@.take(i + 1) =~= paid@.take(i as int).push(r));
            assert(transfers@ =~= paid@.take(i + 1).map_values(|r: Recipient| transfer_to(r)));
        }
        i += 1;
    }
    proof {
        assert(paid@.take(i as int) =~= paid@);
    }
    transfers
}

/// Settles the pool `total_amount` of contest `contest_id` among `recipients`.
///
/// The request is validated in full before anything changes: the caller and
/// the pool, the size of the request, the sum of the amounts, each role's
/// total against its configured share, and the destination accounts against
/// the paid recipients. Then the audit record is appended to the ledger,
/// which refuses a second record for the same contest and distribution
/// index, and the configuration's counters move on. The payments that the
/// caller is to make come back with the record and the notice for observers.
///
/// On any failure the context is left as it was.
pub fn distribute_rewards(
    ctx: &mut DistributeRewards,
    contest_id: u64,
    distribution_index: u8,
    total_amount: u64,
    recipients: Vec<Recipient>,
) -> (res: Result<Settlement, DistributionError>)
    requires
        old(ctx).config.wf(),
    ensures
        match res {
            Ok(settlement) => {
                &&& old(ctx).rejection(contest_id, distribution_index, total_amount, recipients@)
                    is None
                &&& settlement.record == old(ctx).record_of(
                    contest_id,
                    distribution_index,
                    total_amount,
                    recipients@,
                )
                &&& settlement.event == event_of(settlement.record)
                &&& settlement.transfers@ == transfers_for(recipients@)
                &&& old(ctx).committed(*final(ctx), settlement.record)
            },
            Err(e) => {
                &&& old(ctx).rejection(contest_id, distribution_index, total_amount, recipients@)
                    == Some(e)
                &&& *final(ctx) == *old(ctx)
            },
        },
{
    match ctx.validate_accounts() {
        Err(code) => return Err(DistributionError::Rejected(code)),
        Ok(()) => {},
    }
    match validate_shape(total_amount, &recipients) {
        Err(code) => return Err(DistributionError::Rejected(code)),
        Ok(()) => {},
    }
    let sums = match aggregate(&recipients) {
        Err(e) => return Err(e),
        Ok(sums) => sums,
    };
    if sums.distributed_total > total_amount {
        return Err(DistributionError::Rejected(ErrorCode::ExceedsTotal));
    }
    match validate_shares(&ctx.config, total_amount, &sums) {
        Err(code) => return Err(DistributionError::Rejected(code)),
        Ok(()) => {},
    }
    match reconcile(&ctx.config.samu_mint, &sums.paid, &ctx.remaining_accounts) {
        Err(code) => return Err(DistributionError::Rejected(code)),
        Ok(()) => {},
    }
    if ctx.ledger.contains(contest_id, distribution_index) {
        return Err(DistributionError::RecordExists);
    }
    let total_distributions = match ctx.config.total_distributions.checked_add(1) {
        Some(n) => n,
        None => return Err(DistributionError::CounterOverflow),
    };
    let total_distributed_amount = match ctx.config.total_distributed_amount.checked_add(
        sums.distributed_total,
    ) {
        Some(n) => n,
        None => return Err(DistributionError::CounterOverflow),
    };
    proof {
        lemma_paid_carry_totals(recipients@);
    }
    let record = DistributionRecord {
        contest_id,
        distribution_index,
        total_amount,
        distributed_total: sums.distributed_total,
        creator_total: sums.creator_total,
        voter_total: sums.voter_total,
        nft_holder_total: sums.nft_holder_total,
        platform_total: sums.platform_total,
        recipient_count: sums.paid.len() as u16,
        timestamp: ctx.timestamp,
        admin: ctx.admin,
        bump: ctx.record_bump,
    };
    let event = RewardsDistributed {
        contest_id,
        distribution_index,
        total_amount,
        distributed_total: sums.distributed_total,
        creator_total: sums.creator_total,
        voter_total: sums.voter_total,
        nft_holder_total: sums.nft_holder_total,
        platform_total: sums.platform_total,
        recipient_count: record.recipient_count,
        timestamp: ctx.timestamp,
    };
    let transfers = plan_transfers(&sums.paid);
    match ctx.ledger.create(record) {
        Err(e) => return Err(e),
        Ok(()) => {},
    }
    ctx.config.total_distributions = total_distributions;
    ctx.config.total_distributed_amount = total_distributed_amount;
    Ok(Settlement { record, event, transfers })
}

/// Whether the destination account at each position holds `mint` and
/// belongs to the wallet of the paid recipient at that position.
pub open spec fn custody_holds(
    mint: Pubkey,
    paid: Seq<Recipient>,
    accounts: Seq<TokenAccount>,
) -> bool {
    forall|i: int|
        0 <= i < paid.len() ==> (#[trigger] accounts[i]).mint == mint && accounts[i].owner == (
        #[trigger] paid[i]).wallet
}

/// The destination accounts pass from position `from` on exactly when each
/// of them holds the asset and belongs to its recipient's wallet.
pub proof fn lemma_custody_failure(
    mint: Pubkey,
    paid: Seq<Recipient>,
    accounts: Seq<TokenAccount>,
    from: int,
)
    requires
        0 <= from,
    ensures
        custody_failure(mint, paid, accounts, from) is None <==> forall|i: int|
            from <= i < paid.len() ==> (#[trigger] accounts[i]).mint == mint && accounts[i].owner
                == (#[trigger] paid[i]).wallet,
    decreases paid.len() - from,
{
    if from < paid.len() {
        lemma_custody_failure(mint, paid, accounts, from + 1);
    }
}

/// The sum of the amounts of a list of payments.
pub open spec fn transfers_total(transfers: Seq<Transfer>) -> int
    decreases transfers.len(),
{
    if transfers.len() == 0 {
        0
    } else {
        transfers_total(transfers.drop_last()) + transfers.last().amount
    }
}

/// The payments owed to a list of recipients, none of them without an
/// amount, add up to the sum of their amounts.
proof fn lemma_payments_total(paid: Seq<Recipient>)
    ensures
        transfers_total(paid.map_values(|r: Recipient| transfer_to(r))) == amount_total(paid),
    decreases paid.len(),
{
    let pay = |r: Recipient| transfer_to(r);
    if paid.len() > 0 {
        lemma_payments_total(paid.drop_last());
        assert(paid.map_values(pay).drop_last() =~= paid.drop_last().map_values(pay));
    }
}

/// Nothing is paid but what the recipients are owed: the payments of a
/// settlement add up to the sum of all amounts, each goes to the token
/// account its recipient names, and none is of nothing.
pub proof fn lemma_transfers_pay_the_total(rs: Seq<Recipient>)
    ensures
        transfers_total(transfers_for(rs)) == amount_total(rs),
        transfers_for(rs).len() == paid_recipients(rs).len(),
        forall|i: int|
            0 <= i < transfers_for(rs).len() ==> (#[trigger] transfers_for(rs)[i]).amount > 0
                && transfers_for(rs)[i].to == paid_recipients(rs)[i].token_account,
{
    lemma_paid_carry_totals(rs);
    lemma_payments_total(paid_recipients(rs));
}

/// A request that is sound in every respect settles: the caller is the
/// administrator and the pool is the configuration's own; the pool is above
/// zero and there are between one and fifty recipients; their amounts add up
/// to more than zero and to no more than the pool; every role's total lies
/// within the tolerance of its share; each destination account is the one
/// its paid recipient names, holds the asset and belongs to the recipient's
/// wallet; no record for the pair exists and the counters have room. The
/// settlement then counts one more distribution and exactly the sum of the
/// amounts more as distributed.
pub proof fn lemma_sound_request_settles(
    ctx: DistributeRewards,
    contest_id: u64,
    distribution_index: u8,
    total_amount: u64,
    rs: Seq<Recipient>,
)
    requires
        ctx.account_failure() is None,
        total_amount > 0,
        0 < rs.len() <= MAX_RECIPIENTS,
        0 < amount_total(rs) <= total_amount,
        shares_respected(ctx.config, total_amount, rs),
        ctx.remaining_accounts@.len() == paid_recipients(rs).len(),
        positions_match(paid_recipients(rs), ctx.remaining_accounts@),
        custody_holds(ctx.config.samu_mint, paid_recipients(rs), ctx.remaining_accounts@),
        !has_record(ctx.ledger@, contest_id, distribution_index),
        ctx.config.total_distributions < u64::MAX,
        ctx.config.total_distributed_amount + amount_total(rs) <= u64::MAX,
    ensures
        ctx.rejection(contest_id, distribution_index, total_amount, rs) is None,
        config_after(ctx.config, amount_total(rs)).total_distributions
            == ctx.config.total_distributions + 1,
        config_after(ctx.config, amount_total(rs)).total_distributed_amount
            == ctx.config.total_distributed_amount + amount_total(rs),
        ctx.record_of(contest_id, distribution_index, total_amount, rs).distributed_total
            == amount_total(rs),
{
    lemma_custody_failure(ctx.config.samu_mint, paid_recipients(rs), ctx.remaining_accounts@, 0);
}

/// A role out of its band fails the settlement with `ShareMismatch`, once
/// the caller, the pool, the size of the request and the sum of the amounts
/// have passed; whatever the destination accounts, the ledger and the
/// counters are.
pub proof fn lemma_deviation_is_share_mismatch(
    ctx: DistributeRewards,
    contest_id: u64,
    distribution_index: u8,
    total_amount: u64,
    rs: Seq<Recipient>,
    role: Role,
)
    requires
        ctx.account_failure() is None,
        shape_failure(total_amount, rs) is None,
        sum_failure(total_amount, rs) is None,
        !role_in_band(ctx.config, total_amount, rs, role),
    ensures
        ctx.rejection(contest_id, distribution_index, total_amount, rs) == Some(
            DistributionError::Rejected(ErrorCode::ShareMismatch),
        ),
{
}

/// A settled pair is never settled again. Once a settlement of a contest and
/// distribution index has been committed, every later request for the same
/// pair on that ledger fails, whatever it asks for and whoever asks: with
/// what is wrong with the request itself, if anything is, and else with
/// `RecordExists`.
pub proof fn lemma_replay_is_refused(
    first: DistributeRewards,
    second: DistributeRewards,
    contest_id: u64,
    distribution_index: u8,
    first_amount: u64,
    first_rs: Seq<Recipient>,
    second_amount: u64,
    second_rs: Seq<Recipient>,
)
    requires
        first.rejection(contest_id, distribution_index, first_amount, first_rs) is None,
        second.ledger@ == first.ledger@.push(
            first.record_of(contest_id, distribution_index, first_amount, first_rs),
        ),
    ensures
        second.rejection(contest_id, distribution_index, second_amount, second_rs) is Some,
        second.validation_failure(second_amount, second_rs) is None ==> second.rejection(
            contest_id,
            distribution_index,
            second_amount,
            second_rs,
        ) == Some(DistributionError::RecordExists),
{
    let record = first.record_of(contest_id, distribution_index, first_amount, first_rs);
    let at = first.ledger@.len() as int;
    assert(second.ledger@[at] == record);
    assert(record.key() == (contest_id, distribution_index));
    assert(has_record(second.ledger@, contest_id, distribution_index));
}

/// Records are only ever added: a record that the ledger held before a
/// settlement, it holds after it, at the same place.
pub proof fn lemma_ledger_only_grows(
    before: DistributeRewards,
    after: DistributeRewards,
    record: DistributionRecord,
)
    requires
        before.committed(after, record),
    ensures
        after.ledger@.len() == before.ledger@.len() + 1,
        forall|i: int| 0 <= i < before.ledger@.len() ==> after.ledger@[i] == before.ledger@[i],
        after.ledger@.last() == record,
{
}

/// A settlement moves the counters and nothing else: both only ever grow,
/// and shares, lock, administrator, treasury and asset stay as they are.
pub proof fn lemma_settlement_moves_only_counters(config: Config, distributed: int)
    requires
        0 <= distributed,
        config.total_distributions + 1 <= u64::MAX,
        config.total_distributed_amount + distributed <= u64::MAX,
    ensures
        ({
            let after = config_after(config, distributed);
            &&& after.total_distributions == config.total_distributions + 1
            &&& after.total_distributed_amount == config.total_distributed_amount + distributed
            &&& after.total_distributed_amount >= config.total_distributed_amount
            &&& after.wf() == config.wf()
            &&& after.is_locked == config.is_locked
            &&& after.admin == config.admin
            &&& after.treasury == config.treasury
            &&& after.samu_mint == config.samu_mint
            &&& after.bump == config.bump
        }),
{
}

/// What a settlement pays, it pays into the accounts that were supplied: there
/// is one payment for each destination account, in their order, each into
/// that account, which holds the asset and belongs to the wallet of the
/// recipient that is paid.
pub proof fn lemma_settlement_pays_the_supplied_accounts(
    ctx: DistributeRewards,
    contest_id: u64,
    distribution_index: u8,
    total_amount: u64,
    rs: Seq<Recipient>,
)
    requires
        ctx.rejection(contest_id, distribution_index, total_amount, rs) is None,
    ensures
        transfers_for(rs).len() == ctx.remaining_accounts@.len(),
        forall|i: int|
            0 <= i < transfers_for(rs).len() ==> {
                &&& (#[trigger] transfers_for(rs)[i]).to == ctx.remaining_accounts@[i].key
                &&& transfers_for(rs)[i].amount == paid_recipients(rs)[i].amount
                &&& ctx.remaining_accounts@[i].mint == ctx.config.samu_mint
                &&& ctx.remaining_accounts@[i].owner == paid_recipients(rs)[i].wallet
            },
        transfers_total(transfers_for(rs)) == amount_total(rs),
        amount_total(rs) <= total_amount,
{
    let paid = paid_recipients(rs);
    let accounts = ctx.remaining_accounts@;
    lemma_custody_failure(ctx.config.samu_mint, paid, accounts, 0);
    lemma_transfers_pay_the_total(rs);
    assert forall|i: int| 0 <= i < transfers_for(rs).len() implies {
        &&& (#[trigger] transfers_for(rs)[i]).to == accounts[i].key
        &&& transfers_for(rs)[i].amount == paid[i].amount
        &&& accounts[i].mint == ctx.config.samu_mint
        &&& accounts[i].owner == paid[i].wallet
    } by {
        assert(accounts[i].key == paid[i].token_account);
    }
}

} // verus!
