use crate::errors::EventError;
use crate::pubkey::Pubkey;
use crate::state::event::stored_len;
use crate::state::{Budget, BudgetStatus, Campaign, CampaignStatus, Milestone};
use vstd::prelude::*;

verus! {

/// One milestone as the organizer plans it.
#[derive(Clone, Debug)]
pub struct MilestoneInput {
    pub description: String,
    /// Part of the budget that this milestone releases, in basis points.
    pub release_percentage: u16,
    /// The milestone cannot be released before this time.
    pub unlock_date: i64,
}

/// The accounts that take part in submitting a budget.
pub struct SubmitBudget {
    pub campaign: Campaign,
    pub campaign_key: Pubkey,
    /// The record to fill in.
    pub budget: Budget,
    pub budget_bump: u8,
    /// Who submits the budget; must be the organizer of the campaign.
    pub organizer: Pubkey,
}

/// The release percentages of a plan of three milestones added up.
pub open spec fn planned_total(milestones: Seq<MilestoneInput>) -> int {
    milestones[0].release_percentage + milestones[1].release_percentage
        + milestones[2].release_percentage
}

/// Why a spending plan is refused, if it is: the first of the checks that
/// fails. A plan spends no more than was raised, has exactly three
/// milestones that release 100% together, keeps its texts short, and its
/// vote ends at a time that can be written down.
pub open spec fn plan_refusal(
    total_raised: u64,
    total_amount: u64,
    description: Seq<char>,
    milestones: Seq<MilestoneInput>,
    voting_period_seconds: i64,
    now: i64,
) -> Option<EventError> {
    if total_amount > total_raised {
        Some(EventError::BudgetExceedsFunds)
    } else if stored_len(description) > 200 {
        Some(EventError::BudgetDescriptionTooLong)
    } else if milestones.len() != 3 {
        Some(EventError::InvalidMilestonePercentages)
    } else if planned_total(milestones) != 10_000 {
        Some(EventError::InvalidMilestonePercentages)
    } else if exists|i: int| 0 <= i < 3 && stored_len(#[trigger] milestones[i].description@) > 100 {
        Some(EventError::MilestoneDescriptionTooLong)
    } else if !(i64::MIN <= now + voting_period_seconds <= i64::MAX) {
        Some(EventError::ArithmeticOverflow)
    } else {
        None
    }
}

/// A milestone as it stands in a new budget: as planned, and not released.
pub open spec fn planned_milestone(input: MilestoneInput) -> Milestone {
    Milestone {
        description: input.description,
        release_percentage: input.release_percentage,
        unlock_date: input.unlock_date,
        released: false,
        released_amount: 0,
    }
}

/// A budget as it is right after it was put to the vote: pending, without
/// votes, with its three milestones unreleased.
pub open spec fn planned_budget(
    budget: Budget,
    campaign: Pubkey,
    total_amount: u64,
    description: String,
    milestones: Seq<MilestoneInput>,
    voting_period_seconds: i64,
    revision_count: u8,
    bump: u8,
    now: i64,
) -> bool {
    &&& budget.campaign == campaign
    &&& budget.total_amount == total_amount
    &&& budget.description == description
    &&& forall|i: int| 0 <= i < 3 ==> budget.milestones[i] == planned_milestone(milestones[i])
    &&& budget.status == BudgetStatus::Pending
    &&& budget.voting_end == now + voting_period_seconds
    &&& budget.votes_for == 0
    &&& budget.votes_against == 0
    &&& budget.revision_count == revision_count
    &&& budget.created_at == now
    &&& budget.bump == bump
}

/// Why the budget cannot be submitted, if it cannot: the first of the
/// checks that fails.
pub open spec fn refusal(
    ctx: SubmitBudget,
    total_amount: u64,
    description: Seq<char>,
    milestones: Seq<MilestoneInput>,
    voting_period_seconds: i64,
    now: i64,
) -> Option<EventError> {
    if ctx.campaign.organizer != ctx.organizer {
        Some(EventError::UnauthorizedCampaignAction)
    } else if ctx.campaign.status != CampaignStatus::Funded {
        Some(EventError::CampaignNotFunded)
    } else {
        plan_refusal(
            ctx.campaign.total_raised,
            total_amount,
            description,
            milestones,
            voting_period_seconds,
            now,
        )
    }
}

/// Checks a spending plan and works out when its vote ends.
pub fn check_plan(
    total_raised: u64,
    total_amount: u64,
    description: &String,
    milestones: &Vec<MilestoneInput>,
    voting_period_seconds: i64,
    now: i64,
) -> (result: Result<i64, EventError>)
    ensures
        match plan_refusal(
            total_raised,
            total_amount,
            description@,
            milestones@,
            voting_period_seconds,
            now,
        ) {
            Some(error) => result == Err::<i64, EventError>(error),
            None => result == Ok::<i64, EventError>((now + voting_period_seconds) as i64),
        },
{
    if total_amount > total_raised {
        return Err(EventError::BudgetExceedsFunds);
    }
    if description.as_str().len() > Budget::MAX_DESCRIPTION_LEN {
        return Err(EventError::BudgetDescriptionTooLong);
    }
    if milestones.len() != 3 {
        return Err(EventError::InvalidMilestonePercentages);
    }
    let total_percentage: u32 = milestones[0].release_percentage as u32
        + milestones[1].release_percentage as u32 + milestones[2].release_percentage as u32;
    if total_percentage != 10_000 {
        return Err(EventError::InvalidMilestonePercentages);
    }
    if milestones[0].description.as_str().len() > Budget::MAX_MILESTONE_DESC_LEN {
        assert(stored_len(milestones@[0].description@) > 100);
        return Err(EventError::MilestoneDescriptionTooLong);
    }
    if milestones[1].description.as_str().len() > Budget::MAX_MILESTONE_DESC_LEN {
        assert(stored_len(milestones@[1].description@) > 100);
        return Err(EventError::MilestoneDescriptionTooLong);
    }
    if milestones[2].description.as_str().len() > Budget::MAX_MILESTONE_DESC_LEN {
        assert(stored_len(milestones@[2].description@) > 100);
        return Err(EventError::MilestoneDescriptionTooLong);
    }
    match now.checked_add(voting_period_seconds) {
        Some(voting_end) => Ok(voting_end),
        None => Err(EventError::ArithmeticOverflow),
    }
}

/// Builds the three milestones of a new budget from a checked plan.
pub fn plan_milestones(milestones: &Vec<MilestoneInput>) -> (planned: [Milestone; 3])
    requires
        milestones.len() == 3,
    ensures
        forall|i: int| 0 <= i < 3 ==> planned[i] == planned_milestone(milestones[i]),
{
    [
        Milestone {
            description: milestones[0].description.clone(),
            release_percentage: milestones[0].release_percentage,
            unlock_date: milestones[0].unlock_date,
            released: false,
            released_amount: 0,
        },
        Milestone {
            description: milestones[1].description.clone(),
            release_percentage: milestones[1].release_percentage,
            unlock_date: milestones[1].unlock_date,
            released: false,
            released_amount: 0,
        },
        Milestone {
            description: milestones[2].description.clone(),
            release_percentage: milestones[2].release_percentage,
            unlock_date: milestones[2].unlock_date,
            released: false,
            released_amount: 0,
        },
    ]
}

/// Puts the organizer's spending plan for a funded campaign to the vote,
/// which ends `voting_period_seconds` after `now`, the current time.
pub fn handler(
    ctx: &mut SubmitBudget,
    total_amount: u64,
    description: String,
    milestones: Vec<MilestoneInput>,
    voting_period_seconds: i64,
    now: i64,
) -> (result: Result<(), EventError>)
    ensures
        match refusal(*old(ctx), total_amount, description@, milestones@, voting_period_seconds, now) {
            Some(error) => result == Err::<(), EventError>(error) && *final(ctx) == *old(ctx),
            None => {
                &&& result is Ok
                &&& *final(ctx) == (SubmitBudget { budget: final(ctx).budget, ..*old(ctx) })
                &&& planned_budget(
                    final(ctx).budget,
                    old(ctx).campaign_key,
                    total_amount,
                    description,
                    milestones@,
                    voting_period_seconds,
                    0,
                    old(ctx).budget_bump,
                    now,
                )
                &&& final(ctx).budget.well_formed()
                &&& final(ctx).budget.total_amount <= final(ctx).campaign.total_raised
            },
        },
{
    if ctx.campaign.organizer != ctx.organizer {
        return Err(EventError::UnauthorizedCampaignAction);
    }
    if ctx.campaign.status != CampaignStatus::Funded {
        return Err(EventError::CampaignNotFunded);
    }
    let voting_end = match check_plan(
        ctx.campaign.total_raised,
        total_amount,
        &description,
        &milestones,
        voting_period_seconds,
        now,
    ) {
        Ok(voting_end) => voting_end,
        Err(error) => { return Err(error); },
    };
    ctx.budget = Budget {
        campaign: ctx.campaign_key,
        total_amount,
        description,
        milestones: plan_milestones(&milestones),
        status: BudgetStatus::Pending,
        voting_end,
        votes_for: 0,
        votes_against: 0,
        revision_count: 0,
        created_at: now,
        bump: ctx.budget_bump,
    };
    Ok(())
}

} // verus!
