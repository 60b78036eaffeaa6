//! Grouping a recipient list by role.

use crate::error::{DistributionError, ErrorCode};
use crate::state::{Recipient, Role};
use vstd::prelude::*;

verus! {

/// What `r` adds to the total of `role`.
pub open spec fn amount_in_role(r: Recipient, role: Role) -> int {
    if r.role == role {
        r.amount as int
    } else {
        0
    }
}

/// The sum of the amounts of the recipients of `role`.
pub open spec fn role_total(rs: Seq<Recipient>, role: Role) -> int
    decreases rs.len(),
{
    if rs.len() == 0 {
        0
    } else {
        role_total(rs.drop_last(), role) + amount_in_role(rs.last(), role)
    }
}

/// The sum of all amounts.
pub open spec fn amount_total(rs: Seq<Recipient>) -> int
    decreases rs.len(),
{
    if rs.len() == 0 {
        0
    } else {
        amount_total(rs.drop_last()) + rs.last().amount
    }
}

/// Whether a recipient is owed a transfer.
pub open spec fn is_paid(r: Recipient) -> bool {
    r.amount > 0
}

/// The recipients that are owed a transfer, in their given order.
pub open spec fn paid_recipients(rs: Seq<Recipient>) -> Seq<Recipient> {
    rs.filter(|r: Recipient| is_paid(r))
}

/// The four role totals add up to the sum of all amounts, and none is negative.
pub proof fn lemma_roles_partition_total(rs: Seq<Recipient>)
    ensures
        role_total(rs, Role::Creator) + role_total(rs, Role::Voter) + role_total(
            rs,
            Role::NftHolder,
        ) + role_total(rs, Role::Platform) == amount_total(rs),
        forall|role: Role| 0 <= #[trigger] role_total(rs, role) <= amount_total(rs),
    decreases rs.len(),
{
    if rs.len() > 0 {
        lemma_roles_partition_total(rs.drop_last());
        assert forall|role: Role| 0 <= #[trigger] role_total(rs, role) <= amount_total(rs) by {
            assert(0 <= role_total(rs.drop_last(), role) <= amount_total(rs.drop_last()));
        }
    } else {
        assert forall|role: Role| 0 <= #[trigger] role_total(rs, role) <= amount_total(rs) by {}
    }
}

/// The sum over a prefix is no more than the sum over the whole list.
pub proof fn lemma_prefix_total(rs: Seq<Recipient>, n: int)
    requires
        0 <= n <= rs.len(),
    ensures
        0 <= amount_total(rs.take(n)) <= amount_total(rs),
    decreases rs.len() - n,
{
    lemma_roles_partition_total(rs.take(n));
    assert(0 <= role_total(rs.take(n), Role::Creator) <= amount_total(rs.take(n)));
    if n == rs.len() {
        assert(rs.take(n) =~= rs);
    } else {
        lemma_prefix_total(rs, n + 1);
        assert(rs.take(n + 1).drop_last() =~= rs.take(n));
    }
}

/// Recipients without an amount add nothing: the paid recipients carry every
/// role total, and so the whole sum.
pub proof fn lemma_paid_carry_totals(rs: Seq<Recipient>)
    ensures
        forall|role: Role| #[trigger]
            role_total(paid_recipients(rs), role) == role_total(rs, role),
        amount_total(paid_recipients(rs)) == amount_total(rs),
        forall|i: int|
            0 <= i < paid_recipients(rs).len() ==> is_paid(#[trigger] paid_recipients(rs)[i]),
        paid_recipients(rs).len() <= rs.len(),
    decreases rs.len(),
{
    let paid = |r: Recipient| is_paid(r);
    reveal(Seq::filter);
    if rs.len() > 0 {
        lemma_paid_carry_totals(rs.drop_last());
        let before = paid_recipients(rs.drop_last());
        if is_paid(rs.last()) {
            assert(paid_recipients(rs) == before.push(rs.last()));
            assert(paid_recipients(rs).drop_last() =~= before);
        } else {
            assert(paid_recipients(rs) == before);
        }
        assert forall|role: Role| #[trigger]
            role_total(paid_recipients(rs), role) == role_total(rs, role) by {
            assert(role_total(before, role) == role_total(rs.drop_last(), role));
        }
    } else {
        assert(paid_recipients(rs) =~= rs);
    }
}

/// A recipient list, grouped by role.
#[derive(Debug, PartialEq, Eq)]
pub struct Aggregate {
    pub creator_total: u64,
    pub voter_total: u64,
    pub nft_holder_total: u64,
    pub platform_total: u64,
    /// The sum of the four role totals.
    pub distributed_total: u64,
    /// The recipients with an amount above zero, in their given order.
    pub paid: Vec<Recipient>,
}

impl Aggregate {
    /// Whether this is the grouping of `rs`.
    pub open spec fn is_of(&self, rs: Seq<Recipient>) -> bool {
        &&& self.creator_total == role_total(rs, Role::Creator)
        &&& self.voter_total == role_total(rs, Role::Voter)
        &&& self.nft_holder_total == role_total(rs, Role::NftHolder)
        &&& self.platform_total == role_total(rs, Role::Platform)
        &&& self.distributed_total == amount_total(rs)
        &&& self.paid@ == paid_recipients(rs)
    }
}

/// Why `rs` cannot be grouped, if it cannot.
pub open spec fn aggregation_failure(rs: Seq<Recipient>) -> Option<DistributionError> {
    if amount_total(rs) > u64::MAX {
        Some(DistributionError::AggregationOverflow)
    } else if amount_total(rs) == 0 {
        Some(DistributionError::Rejected(ErrorCode::InvalidAmount))
    } else {
        None
    }
}

/// Sums the amounts of each role with overflow-tested additions, and keeps
/// the recipients that are owed a transfer.
///
/// Fails when the amounts do not add up within 64 bits, and with
/// `InvalidAmount` when they add up to zero.
pub fn aggregate(recipients: &Vec<Recipient>) -> (res: Result<Aggregate, DistributionError>)
    ensures
        match res {
            Ok(sums) => aggregation_failure(recipients@) is None && sums.is_of(recipients@),
            Err(e) => aggregation_failure(recipients@) == Some(e),
        },
{
    let ghost rs = recipients@;
    let mut creator_total: u64 = 0;
    let mut voter_total: u64 = 0;
    let mut nft_holder_total: u64 = 0;
    let mut platform_total: u64 = 0;
    let mut paid: Vec<Recipient> = Vec::new();
    let mut i: usize = 0;
    proof {
        assert(rs.take(0) =~= Seq::<Recipient>::empty());
        reveal(Seq::filter);
    }
    while i < recipients.len()
        invariant
            rs == recipients@,
            0 <= i <= rs.len(),
            creator_total == role_total(rs.take(i as int), Role::Creator),
            voter_total == role_total(rs.take(i as int), Role::Voter),
            nft_holder_total == role_total(rs.take(i as int), Role::NftHolder),
            platform_total == role_total(rs.take(i as int), Role::Platform),
            paid@ == paid_recipients(rs.take(i as int)),
        decreases rs.len() - i,
    {
        let r = recipients[i];
        proof {
            let next = rs.take(i + 1);
            assert(next.drop_last() =~= rs.take(i as int));
            assert(next.last() == r);
            assert(next =~= rs.take(i as int).push(r));
            rs.take(i as int).lemma_filter_push(r, |x: Recipient| is_paid(x));
            lemma_roles_partition_total(next);
            lemma_prefix_total(rs, i + 1);
        }
        let sum = match r.role {
            Role::Creator => creator_total.checked_add(r.amount),
            Role::Voter => voter_total.checked_add(r.amount),
            Role::NftHolder => nft_holder_total.checked_add(r.amount),
            Role::Platform => platform_total.checked_add(r.amount),
        };
        let sum = match sum {
            Some(sum) => sum,
            None => {
                assert(role_total(rs.take(i + 1), r.role) > u64::MAX);
                return Err(DistributionError::AggregationOverflow);
            },
        };
        match r.role {
            Role::Creator => creator_total = sum,
            Role::Voter => voter_total = sum,
            Role::NftHolder => nft_holder_total = sum,
            Role::Platform => platform_total = sum,
        }
        if r.amount > 0 {
            paid.push(r);
        }
        i += 1;
    }
    proof {
        assert(rs.take(i as int) =~= rs);
        lemma_roles_partition_total(rs);
    }
    let distributed_total = match creator_total.checked_add(voter_total) {
        Some(sum) => match sum.checked_add(nft_holder_total) {
            Some(sum) => match sum.checked_add(platform_total) {
                Some(sum) => sum,
                None => return Err(DistributionError::AggregationOverflow),
            },
            None => return Err(DistributionError::AggregationOverflow),
        },
        None => return Err(DistributionError::AggregationOverflow),
    };
    if distributed_total == 0 {
        return Err(DistributionError::Rejected(ErrorCode::InvalidAmount));
    }
    Ok(
        Aggregate {
            creator_total,
            voter_total,
            nft_holder_total,
            platform_total,
            distributed_total,
            paid,
        },
    )
}

} // verus!
