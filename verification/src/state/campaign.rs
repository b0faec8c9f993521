use crate::pubkey::Pubkey;
use vstd::prelude::*;

verus! {

/// Where a campaign stands in its life.
///
/// A campaign starts `Pending`, becomes `Funded` or `Failed` when it is
/// finalized, and a `Funded` campaign becomes `Completed` when its profit is
/// split. No other change of status exists.
#[derive(Clone, Copy, Debug, PartialEq, Eq, Structural)]
pub enum CampaignStatus {
    /// Accepting contributions.
    Pending,
    /// The goal was reached; the event goes ahead.
    Funded,
    /// The goal was missed; backers take their money back.
    Failed,
    /// The event is over and the profit has been split.
    Completed,
}

impl CampaignStatus {
    /// `self` may be followed by `next`: either nothing changed or one of the
    /// three allowed steps was taken.
    pub open spec fn may_become(self, next: CampaignStatus) -> bool {
        ||| next == self
        ||| (self == CampaignStatus::Pending && next == CampaignStatus::Funded)
        ||| (self == CampaignStatus::Pending && next == CampaignStatus::Failed)
        ||| (self == CampaignStatus::Funded && next == CampaignStatus::Completed)
    }
}

/// `Failed` and `Completed` are the end of the road: a campaign that has
/// reached one of them never leaves it.
pub proof fn law_settled_status_stays(before: CampaignStatus, after: CampaignStatus)
    requires
        before.may_become(after),
        before == CampaignStatus::Failed || before == CampaignStatus::Completed,
    ensures
        after == before,
{
}

/// No sequence of allowed steps leads from `Failed` to `Completed` or back:
/// a campaign never both refunds its backers and pays them a profit.
pub proof fn law_failed_and_completed_exclude(first: CampaignStatus, second: CampaignStatus, third: CampaignStatus)
    requires
        first.may_become(second),
        second.may_become(third),
    ensures
        !(first == CampaignStatus::Failed && third == CampaignStatus::Completed),
        !(first == CampaignStatus::Completed && third == CampaignStatus::Failed),
{
}

impl Default for CampaignStatus {
    fn default() -> (status: CampaignStatus)
        ensures
            status == CampaignStatus::Pending,
    {
        CampaignStatus::Pending
    }
}

/// A crowdfunding vehicle tied to one event.
#[derive(Clone, Copy, Debug)]
pub struct Campaign {
    pub event: Pubkey,
    /// Who created the campaign; the authority of the event.
    pub organizer: Pubkey,
    pub funding_goal: u64,
    /// Lamports contributed and not taken back.
    pub total_raised: u64,
    /// The goal must be reached by this time.
    pub deadline: i64,
    pub status: CampaignStatus,
    pub total_contributors: u32,
    pub created_at: i64,
    /// Lamports released to the organizer through budget milestones.
    pub total_expenses: u64,
    /// Ticket revenue of the event, fixed when the profit is split.
    pub total_revenue: u64,
    pub backer_pool: u64,
    pub organizer_pool: u64,
    pub platform_pool: u64,
    /// Whether the profit has been split into the three pools.
    pub distribution_complete: bool,
    /// Whether the organizer has taken the organizer pool.
    pub organizer_claimed: bool,
    pub bump: u8,
}

impl Campaign {
    /// Bytes reserved for a campaign record: 152 for the fields and 48 spare.
    pub const LEN: usize = 8 + 32 + 32 + 8 + 8 + 8 + 1 + 4 + 8 + 8 + 8 + 8 + 8 + 8 + 1 + 1 + 1 + 48;

    /// What the event earned beyond what was spent; zero where it earned
    /// no more than that.
    pub open spec fn profit(&self) -> int {
        if self.total_revenue > self.total_expenses {
            self.total_revenue - self.total_expenses
        } else {
            0
        }
    }

    /// Once the profit has been split, the three pools hold exactly the
    /// profit: nothing is lost to rounding.
    pub open spec fn pools_settled(&self) -> bool {
        self.distribution_complete ==> self.backer_pool + self.organizer_pool
            + self.platform_pool == self.profit()
    }

    /// Whether the campaign still accepts contributions.
    pub fn is_active(&self) -> (active: bool)
        ensures
            active == (self.status == CampaignStatus::Pending),
    {
        self.status == CampaignStatus::Pending
    }

    /// Whether at least the goal has been raised.
    pub fn goal_reached(&self) -> (reached: bool)
        ensures
            reached == (self.total_raised >= self.funding_goal),
    {
        self.total_raised >= self.funding_goal
    }

    /// Whether `current_timestamp` lies after the deadline.
    pub fn deadline_passed(&self, current_timestamp: i64) -> (passed: bool)
        ensures
            passed == (current_timestamp > self.deadline),
    {
        current_timestamp > self.deadline
    }

    /// A pending campaign can be finalized as soon as the goal is reached,
    /// and in any case once the deadline has passed.
    pub open spec fn spec_can_finalize(&self, current_timestamp: i64) -> bool {
        self.status == CampaignStatus::Pending && (self.total_raised >= self.funding_goal
            || current_timestamp > self.deadline)
    }

    /// Whether the campaign can be finalized at `current_timestamp`.
    pub fn can_finalize(&self, current_timestamp: i64) -> (can: bool)
        ensures
            can == self.spec_can_finalize(current_timestamp),
    {
        self.status == CampaignStatus::Pending && (self.goal_reached() || self.deadline_passed(
            current_timestamp,
        ))
    }

    /// Whether backers may take their contributions back.
    pub fn refunds_available(&self) -> (available: bool)
        ensures
            available == (self.status == CampaignStatus::Failed),
    {
        self.status == CampaignStatus::Failed
    }

    /// Whether the profit can be split now: the campaign is funded, the
    /// event is over and the split has not been made yet.
    pub fn can_distribute(&self, event_ended: bool) -> (can: bool)
        ensures
            can == (self.status == CampaignStatus::Funded && event_ended
                && !self.distribution_complete),
    {
        self.status == CampaignStatus::Funded && event_ended && !self.distribution_complete
    }
}

} // verus!
