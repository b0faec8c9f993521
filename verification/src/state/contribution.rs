use crate::pubkey::Pubkey;
use crate::state::campaign::{Campaign, CampaignStatus};
use vstd::prelude::*;

verus! {

/// The part of `pool` that goes to a stake of `amount` out of `total`,
/// rounded down; nothing where nothing was raised.
pub open spec fn share_of(amount: nat, pool: nat, total: nat) -> nat {
    if total == 0 {
        0
    } else {
        (amount * pool) / total
    }
}

/// One backer's stake in one campaign.
#[derive(Clone, Copy, Debug)]
pub struct Contribution {
    pub campaign: Pubkey,
    pub contributor: Pubkey,
    /// Lamports contributed.
    pub amount: u64,
    pub contributed_at: i64,
    /// Taken back after the campaign failed.
    pub refunded: bool,
    /// The backer's part of the backer pool, fixed when it is claimed.
    pub profit_share: u64,
    pub profit_claimed: bool,
    pub bump: u8,
}

impl Contribution {
    /// Bytes reserved for a contribution record.
    pub const LEN: usize = 8 + 32 + 32 + 8 + 8 + 1 + 8 + 1 + 1;

    /// A stake is either taken back or rewarded, never both.
    pub open spec fn well_formed(&self) -> bool {
        !(self.refunded && self.profit_claimed)
    }

    /// The stake agrees with the state of its campaign: it was taken back
    /// only from a failed campaign, and rewarded only by a completed one.
    pub open spec fn agrees_with(&self, campaign: Campaign) -> bool {
        &&& self.refunded ==> campaign.status == CampaignStatus::Failed
        &&& self.profit_claimed ==> campaign.status == CampaignStatus::Completed
    }

    /// What `calculate_share` returns: the rounded-down proportional part,
    /// cut to 64 bits. The cut changes nothing while the stake is no larger
    /// than the total (see `lemma_share_fits`).
    pub open spec fn spec_calculate_share(&self, pool_amount: u64, total_raised: u64) -> u64 {
        share_of(self.amount as nat, pool_amount as nat, total_raised as nat) as u64
    }

    /// The weight of this backer's vote: the lamports contributed.
    pub fn voting_power(&self) -> (power: u64)
        ensures
            power == self.amount,
    {
        self.amount
    }

    /// This backer's proportional part of `pool_amount`, rounded down, where
    /// `total_raised` is what all backers contributed together. Zero where
    /// nothing was raised.
    pub fn calculate_share(&self, pool_amount: u64, total_raised: u64) -> (share: u64)
        ensures
            share == self.spec_calculate_share(pool_amount, total_raised),
            self.amount <= total_raised ==> share == share_of(
                self.amount as nat,
                pool_amount as nat,
                total_raised as nat,
            ),
            self.amount <= total_raised ==> share <= pool_amount,
    {
        if total_raised == 0 {
            return 0;
        }
        let contribution: u128 = self.amount as u128;
        let total: u128 = total_raised as u128;
        let pool: u128 = pool_amount as u128;
        assert(contribution * pool <= 0xffff_ffff_ffff_ffff * 0xffff_ffff_ffff_ffff)
            by (nonlinear_arith)
            requires
                contribution <= 0xffff_ffff_ffff_ffff,
                pool <= 0xffff_ffff_ffff_ffff,
        ;
        let share: u128 = (contribution * pool) / total;
        proof {
            if self.amount <= total_raised {
                lemma_share_fits(self.amount as nat, pool_amount as nat, total_raised as nat);
            }
        }
        #[verifier::truncate]
        (share as u64)
    }

    /// Whether the contribution can still be taken back.
    pub fn can_refund(&self) -> (can: bool)
        ensures
            can == !self.refunded,
    {
        !self.refunded
    }

    /// Whether a profit is waiting to be claimed.
    pub fn can_claim_profit(&self) -> (can: bool)
        ensures
            can == (!self.profit_claimed && self.profit_share > 0),
    {
        !self.profit_claimed && self.profit_share > 0
    }
}

/// A stake that agrees with its campaign is either taken back or rewarded,
/// never both.
pub proof fn law_refund_excludes_profit(contribution: Contribution, campaign: Campaign)
    requires
        contribution.agrees_with(campaign),
    ensures
        contribution.well_formed(),
{
}

/// Whatever step the campaign takes, a stake that agreed with it before
/// agrees with it afterwards.
pub proof fn law_agreement_survives(contribution: Contribution, before: Campaign, after: Campaign)
    requires
        contribution.agrees_with(before),
        before.status.may_become(after.status),
    ensures
        contribution.agrees_with(after),
{
}

/// What the backers in a list still have at stake: the amounts of those
/// contributions that were not taken back, added up.
pub open spec fn backed_total(contributions: Seq<Contribution>) -> nat
    decreases contributions.len(),
{
    if contributions.len() == 0 {
        0
    } else {
        backed_total(contributions.drop_last()) + if contributions.last().refunded {
            0nat
        } else {
            contributions.last().amount as nat
        }
    }
}

/// Taking one contribution of a list back lowers what is at stake by exactly
/// its amount.
pub proof fn lemma_refund_lowers_total(contributions: Seq<Contribution>, index: int)
    requires
        0 <= index < contributions.len(),
        !contributions[index].refunded,
    ensures
        backed_total(contributions) == backed_total(
            contributions.update(
                index,
                Contribution { refunded: true, ..contributions[index] },
            ),
        ) + contributions[index].amount,
    decreases contributions.len(),
{
    let after = contributions.update(index, Contribution { refunded: true, ..contributions[index] });
    if index == contributions.len() - 1 {
        assert(after.drop_last() =~= contributions.drop_last());
    } else {
        lemma_refund_lowers_total(contributions.drop_last(), index);
        assert(after.drop_last() =~= contributions.drop_last().update(
            index,
            Contribution { refunded: true, ..contributions[index] },
        ));
    }
}

/// The shares of a list of stakes added up.
pub open spec fn shares_total(amounts: Seq<nat>, pool: nat, total: nat) -> nat
    decreases amounts.len(),
{
    if amounts.len() == 0 {
        0
    } else {
        shares_total(amounts.drop_last(), pool, total) + share_of(amounts.last(), pool, total)
    }
}

/// A list of stakes added up.
pub open spec fn stakes_total(amounts: Seq<nat>) -> nat
    decreases amounts.len(),
{
    if amounts.len() == 0 {
        0
    } else {
        stakes_total(amounts.drop_last()) + amounts.last()
    }
}

/// The backers never get more than the pool between them: where their
/// stakes add up to no more than the total, their shares add up to no more
/// than the pool. What rounding withholds stays undistributed.
pub proof fn law_shares_within_pool(amounts: Seq<nat>, pool: nat, total: nat)
    requires
        stakes_total(amounts) <= total,
    ensures
        shares_total(amounts, pool, total) <= share_of(stakes_total(amounts), pool, total),
        shares_total(amounts, pool, total) <= pool,
    decreases amounts.len(),
{
    if amounts.len() > 0 {
        let rest = amounts.drop_last();
        let last = amounts.last();
        law_shares_within_pool(rest, pool, total);
        if total > 0 {
            let a = stakes_total(rest) * pool;
            let b = last * pool;
            assert((stakes_total(rest) + last) * pool == a + b) by (nonlinear_arith)
                requires
                    a == stakes_total(rest) * pool,
                    b == last * pool,
            ;
            assert(a / total + b / total <= (a + b) / total) by (nonlinear_arith)
                requires
                    total > 0,
                    a >= 0,
                    b >= 0,
            ;
        }
    }
    lemma_share_fits(stakes_total(amounts), pool, total);
}

/// A stake that is no larger than the total never gets more than the pool.
pub proof fn lemma_share_fits(amount: nat, pool: nat, total: nat)
    requires
        amount <= total,
    ensures
        share_of(amount, pool, total) <= pool,
{
    if total > 0 {
        assert((amount * pool) / total <= pool) by (nonlinear_arith)
            requires
                amount <= total,
                total > 0,
        ;
    }
}

/// A larger stake never gets a smaller share.
pub proof fn law_share_monotonic(smaller: nat, larger: nat, pool: nat, total: nat)
    requires
        smaller <= larger,
    ensures
        share_of(smaller, pool, total) <= share_of(larger, pool, total),
{
    if total > 0 {
        assert((smaller * pool) / total <= (larger * pool) / total) by (nonlinear_arith)
            requires
                smaller <= larger,
                total > 0,
        ;
    }
}

/// The share is the exact proportion rounded down: it never pays more than
/// `amount * pool / total`, and misses it by less than one lamport.
pub proof fn law_share_is_floor(amount: nat, pool: nat, total: nat)
    requires
        total > 0,
    ensures
        share_of(amount, pool, total) * total <= amount * pool,
        amount * pool < (share_of(amount, pool, total) + 1) * total,
{
    let product = amount * pool;
    assert((product / total) * total <= product && product < (product / total + 1) * total)
        by (nonlinear_arith)
        requires
            total > 0,
    ;
}

/// Doubling the stake doubles the share, up to the one lamport that
/// rounding down may have withheld from the single stake.
pub proof fn law_share_doubling(amount: nat, pool: nat, total: nat)
    ensures
        2 * share_of(amount, pool, total) <= share_of(2 * amount, pool, total),
        share_of(2 * amount, pool, total) <= 2 * share_of(amount, pool, total) + 1,
{
    if total > 0 {
        let product = amount * pool;
        assert((2 * amount) * pool == 2 * product) by (nonlinear_arith)
            requires
                product == amount * pool,
        ;
        assert(2 * (product / total) <= (2 * product) / total && (2 * product) / total <= 2 * (
        product / total) + 1) by (nonlinear_arith)
            requires
                total > 0,
        ;
    }
}

/// Whoever contributed everything gets the whole pool.
pub proof fn law_share_of_everything(pool: nat, total: nat)
    requires
        total > 0,
    ensures
        share_of(total, pool, total) == pool,
{
    assert((total * pool) / total == pool) by (nonlinear_arith)
        requires
            total > 0,
    ;
}

} // verus!
