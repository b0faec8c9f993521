use crate::pubkey::Pubkey;
use vstd::prelude::*;

verus! {

/// Where a budget stands in its life.
///
/// A budget starts `Pending`; the vote makes it `Approved` or `Rejected`; an
/// approved budget becomes `Executed` when its last milestone is released.
#[derive(Clone, Copy, Debug, PartialEq, Eq, Structural)]
pub enum BudgetStatus {
    /// Submitted, waiting for votes.
    Pending,
    /// Approved by the backers; milestones can be released.
    Approved,
    /// Rejected by the backers; a revision may follow.
    Rejected,
    /// Every milestone has been released.
    Executed,
}

impl BudgetStatus {
    /// `self` may be followed by `next`: either nothing changed or one of the
    /// three allowed steps was taken.
    pub open spec fn may_become(self, next: BudgetStatus) -> bool {
        ||| next == self
        ||| (self == BudgetStatus::Pending && next == BudgetStatus::Approved)
        ||| (self == BudgetStatus::Pending && next == BudgetStatus::Rejected)
        ||| (self == BudgetStatus::Approved && next == BudgetStatus::Executed)
    }
}

impl Default for BudgetStatus {
    fn default() -> (status: BudgetStatus)
        ensures
            status == BudgetStatus::Pending,
    {
        BudgetStatus::Pending
    }
}

/// The lamports that a milestone of `release_percentage` basis points
/// releases from a budget of `total_amount`, rounded down.
pub open spec fn release_amount_of(total_amount: u64, release_percentage: u16) -> nat {
    ((total_amount as nat) * (release_percentage as nat)) / 10_000
}

/// One of the three steps in which a budget is paid out.
#[derive(Clone, Debug)]
pub struct Milestone {
    pub description: String,
    /// Part of the budget that this milestone releases, in basis points.
    pub release_percentage: u16,
    /// The milestone cannot be released before this time.
    pub unlock_date: i64,
    pub released: bool,
    /// Lamports paid out when the milestone was released; 0 until then.
    pub released_amount: u64,
}

impl Milestone {
    /// Bytes reserved for a milestone.
    pub const LEN: usize = 4 + Budget::MAX_MILESTONE_DESC_LEN + 2 + 8 + 1 + 8;

    /// Whether the milestone can be released at `current_timestamp`: its
    /// date has come and it has not been released before.
    pub fn is_unlocked(&self, current_timestamp: i64) -> (unlocked: bool)
        ensures
            unlocked == (current_timestamp >= self.unlock_date && !self.released),
    {
        current_timestamp >= self.unlock_date && !self.released
    }
}

/// The organizer's plan for spending what a funded campaign raised.
#[derive(Clone, Debug)]
pub struct Budget {
    pub campaign: Pubkey,
    /// Lamports that the three milestones release together.
    pub total_amount: u64,
    pub description: String,
    pub milestones: [Milestone; 3],
    pub status: BudgetStatus,
    /// Votes are counted until this time.
    pub voting_end: i64,
    /// Lamports of contribution that voted for the budget.
    pub votes_for: u64,
    /// Lamports of contribution that voted against it.
    pub votes_against: u64,
    /// How many times the plan was revised before this budget; at most 2.
    pub revision_count: u8,
    pub created_at: i64,
    pub bump: u8,
}

impl Budget {
    pub const MAX_DESCRIPTION_LEN: usize = 200;

    pub const MAX_MILESTONE_DESC_LEN: usize = 100;

    /// Most revisions that one plan can go through.
    pub const MAX_REVISIONS: u8 = 2;

    /// Bytes reserved for a budget record.
    pub const LEN: usize = 8 + 32 + 8 + 4 + Budget::MAX_DESCRIPTION_LEN + (Milestone::LEN * 3) + 1
        + 8 + 8 + 8 + 1 + 8 + 1;

    /// The three release percentages added up, in basis points.
    pub open spec fn percentage_total(&self) -> int {
        self.milestones[0].release_percentage + self.milestones[1].release_percentage
            + self.milestones[2].release_percentage
    }

    /// The milestones release the whole budget, and the plan was revised no
    /// more often than allowed.
    pub open spec fn well_formed(&self) -> bool {
        &&& self.percentage_total() == 10_000
        &&& self.revision_count <= 2
    }

    /// The vote carries the budget: more lamports for than against, and at
    /// least one for. A tie, or no vote at all, does not.
    pub open spec fn spec_is_approved(&self) -> bool {
        self.votes_for > self.votes_against && self.votes_for > 0
    }

    /// Whether every milestone has been released.
    pub open spec fn all_released(&self) -> bool {
        self.milestones[0].released && self.milestones[1].released && self.milestones[2].released
    }

    /// Whether votes are no longer counted at `current_timestamp`.
    pub fn voting_ended(&self, current_timestamp: i64) -> (ended: bool)
        ensures
            ended == (current_timestamp >= self.voting_end),
    {
        current_timestamp >= self.voting_end
    }

    /// Whether the votes cast so far carry the budget.
    pub fn is_approved(&self) -> (approved: bool)
        ensures
            approved == self.spec_is_approved(),
    {
        self.votes_for > self.votes_against && self.votes_for > 0
    }

    /// Whether a revision may follow: the budget was rejected and the plan
    /// has been revised fewer than two times.
    pub fn can_revise(&self) -> (can: bool)
        ensures
            can == (self.status == BudgetStatus::Rejected && self.revision_count < 2),
    {
        self.status == BudgetStatus::Rejected && self.revision_count < Budget::MAX_REVISIONS
    }

    /// Whether the three release percentages add up to exactly 100%.
    pub fn validate_milestone_percentages(&self) -> (valid: bool)
        ensures
            valid == (self.percentage_total() == 10_000),
    {
        let total: u32 = self.milestones[0].release_percentage as u32
            + self.milestones[1].release_percentage as u32
            + self.milestones[2].release_percentage as u32;
        total == 10_000
    }
}

/// Three parts of a budget whose percentages add up to 100% add up, before
/// any rounding, to 10000 times the budget, and none of them is negative.
proof fn lemma_parts_before_rounding(total_amount: u64, first: u16, second: u16, third: u16)
    requires
        first + second + third == 10_000,
    ensures
        total_amount * first + total_amount * second + total_amount * third == total_amount
            * 10_000,
        total_amount * first >= 0,
        total_amount * second >= 0,
        total_amount * third >= 0,
{
    let t = total_amount as int;
    assert(t * first + t * second + t * third == t * 10_000) by (nonlinear_arith)
        requires
            first + second + third == 10_000,
    ;
    assert(t * first >= 0 && t * second >= 0 && t * third >= 0) by (nonlinear_arith)
        requires
            t >= 0,
            first >= 0,
            second >= 0,
            third >= 0,
    ;
}

/// Each milestone rounds down on its own, so the three releases together
/// never exceed the budget and fall short of it by at most two lamports.
pub proof fn law_releases_within_budget(total_amount: u64, first: u16, second: u16, third: u16)
    requires
        first + second + third == 10_000,
    ensures
        release_amount_of(total_amount, first) + release_amount_of(total_amount, second)
            + release_amount_of(total_amount, third) <= total_amount,
        total_amount <= release_amount_of(total_amount, first) + release_amount_of(
            total_amount,
            second,
        ) + release_amount_of(total_amount, third) + 2,
{
    lemma_parts_before_rounding(total_amount, first, second, third);
}

/// Where none of the three milestones loses anything to rounding, the three
/// releases add up to exactly the budget.
pub proof fn law_releases_sum_to_budget(total_amount: u64, first: u16, second: u16, third: u16)
    requires
        first + second + third == 10_000,
        (total_amount * first) % 10_000 == 0,
        (total_amount * second) % 10_000 == 0,
        (total_amount * third) % 10_000 == 0,
    ensures
        release_amount_of(total_amount, first) + release_amount_of(total_amount, second)
            + release_amount_of(total_amount, third) == total_amount,
{
    lemma_parts_before_rounding(total_amount, first, second, third);
}

} // verus!
