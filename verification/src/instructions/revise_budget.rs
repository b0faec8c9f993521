use crate::errors::EventError;
use crate::instructions::submit_budget::{
    check_plan, plan_milestones, plan_refusal, planned_budget, MilestoneInput,
};
use crate::pubkey::Pubkey;
use crate::state::{Budget, BudgetStatus, Campaign};
use vstd::prelude::*;

verus! {

/// The accounts that take part in revising a rejected budget.
pub struct ReviseBudget {
    pub campaign: Campaign,
    pub campaign_key: Pubkey,
    /// The rejected budget of this campaign; it stays as it is, for the
    /// record.
    pub old_budget: Budget,
    /// The record to fill in, kept apart from the old one by its revision
    /// number.
    pub new_budget: Budget,
    pub new_budget_bump: u8,
    /// Who revises the budget; must be the organizer of the campaign.
    pub organizer: Pubkey,
}

/// Why the budget cannot be revised, if it cannot: the first of the checks
/// that fails. Only a rejected budget is revised, and a plan is revised at
/// most twice.
pub open spec fn refusal(
    ctx: ReviseBudget,
    total_amount: u64,
    description: Seq<char>,
    milestones: Seq<MilestoneInput>,
    voting_period_seconds: i64,
    now: i64,
) -> Option<EventError> {
    if ctx.campaign.organizer != ctx.organizer {
        Some(EventError::UnauthorizedCampaignAction)
    } else if ctx.old_budget.campaign != ctx.campaign_key {
        Some(EventError::InvalidCampaign)
    } else if !(ctx.old_budget.status == BudgetStatus::Rejected && ctx.old_budget.revision_count
        < 2) {
        Some(EventError::CannotReviseBudget)
    } else {
        plan_refusal(
            ctx.campaign.total_raised,
            total_amount,
            description,
            milestones,
            voting_period_seconds,
            now,
        )
    }
}

/// Puts a revised spending plan to the vote after the last one was
/// rejected. The new budget counts one revision more than the old one; the
/// old one is not touched. The vote ends `voting_period_seconds` after
/// `now`, the current time.
pub fn handler(
    ctx: &mut ReviseBudget,
    total_amount: u64,
    description: String,
    milestones: Vec<MilestoneInput>,
    voting_period_seconds: i64,
    now: i64,
) -> (result: Result<(), EventError>)
    ensures
        match refusal(*old(ctx), total_amount, description@, milestones@, voting_period_seconds, now) {
            Some(error) => result == Err::<(), EventError>(error) && *final(ctx) == *old(ctx),
            None => {
                &&& result is Ok
                &&& *final(ctx) == (ReviseBudget { new_budget: final(ctx).new_budget, ..*old(ctx) })
                &&& planned_budget(
                    final(ctx).new_budget,
                    old(ctx).campaign_key,
                    total_amount,
                    description,
                    milestones@,
                    voting_period_seconds,
                    (old(ctx).old_budget.revision_count + 1) as u8,
                    old(ctx).new_budget_bump,
                    now,
                )
                &&& final(ctx).new_budget.well_formed()
            },
        },
{
    if ctx.campaign.organizer != ctx.organizer {
        return Err(EventError::UnauthorizedCampaignAction);
    }
    if ctx.old_budget.campaign != ctx.campaign_key {
        return Err(EventError::InvalidCampaign);
    }
    if !ctx.old_budget.can_revise() {
        return Err(EventError::CannotReviseBudget);
    }
    if !(ctx.old_budget.revision_count < Budget::MAX_REVISIONS) {
        return Err(EventError::MaxRevisionsReached);
    }
    let voting_end = match check_plan(
        ctx.campaign.total_raised,
        total_amount,
        &description,
        &milestones,
        voting_period_seconds,
        now,
    ) {
        Ok(voting_end) => voting_end,
        Err(error) => { return Err(error); },
    };
    ctx.new_budget = Budget {
        campaign: ctx.campaign_key,
        total_amount,
        description,
        milestones: plan_milestones(&milestones),
        status: BudgetStatus::Pending,
        voting_end,
        votes_for: 0,
        votes_against: 0,
        revision_count: ctx.old_budget.revision_count + 1,
        created_at: now,
        bump: ctx.new_budget_bump,
    };
    Ok(())
}

} // verus!
