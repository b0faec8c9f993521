use crate::errors::EventError;
use crate::pubkey::Pubkey;
use crate::state::budget::release_amount_of;
use crate::state::{Budget, BudgetStatus, Campaign, Milestone};
use vstd::prelude::*;

verus! {

/// The accounts that take part in releasing a milestone.
pub struct ReleaseMilestone {
    pub campaign: Campaign,
    pub campaign_key: Pubkey,
    /// The budget to pay out from; must be one of this campaign.
    pub budget: Budget,
    pub budget_key: Pubkey,
    /// Who gets the funds; must be the organizer of the campaign.
    pub organizer: Pubkey,
}

/// Audit record of a released milestone. `amount` is what moves from the
/// campaign's escrow to the organizer.
#[derive(Clone, Copy, Debug)]
pub struct MilestoneReleased {
    pub budget: Pubkey,
    pub milestone_index: u8,
    pub amount: u64,
    pub organizer: Pubkey,
    pub timestamp: i64,
}

/// What releasing milestone `index` of the budget pays out.
pub open spec fn amount_due(budget: Budget, index: int) -> nat {
    release_amount_of(budget.total_amount, budget.milestones[index].release_percentage)
}

/// Why the release is refused, if it is: the first of the checks that
/// fails. A milestone is released once, and not before its date.
pub open spec fn refusal(ctx: ReleaseMilestone, milestone_index: u8, now: i64) -> Option<
    EventError,
> {
    if ctx.campaign.organizer != ctx.organizer {
        Some(EventError::UnauthorizedCampaignAction)
    } else if ctx.budget.campaign != ctx.campaign_key {
        Some(EventError::InvalidCampaign)
    } else if ctx.budget.status != BudgetStatus::Approved {
        Some(EventError::BudgetNotApproved)
    } else if milestone_index >= 3 {
        Some(EventError::MilestoneNotReady)
    } else if !(now >= ctx.budget.milestones[milestone_index as int].unlock_date)
        || ctx.budget.milestones[milestone_index as int].released {
        Some(EventError::MilestoneNotReady)
    } else if amount_due(ctx.budget, milestone_index as int) > u64::MAX {
        Some(EventError::ArithmeticOverflow)
    } else if ctx.campaign.total_expenses + amount_due(ctx.budget, milestone_index as int)
        > u64::MAX {
        Some(EventError::ArithmeticOverflow)
    } else {
        None
    }
}

/// The budget after milestone `index` paid out `amount`: that milestone is
/// released with that amount, the others are as before, and the budget is
/// executed once all three are released.
pub open spec fn released(before: Budget, after: Budget, index: int, amount: u64) -> bool {
    &&& after.milestones[index] == (Milestone {
        released: true,
        released_amount: amount,
        ..before.milestones[index]
    })
    &&& forall|i: int| 0 <= i < 3 && i != index ==> after.milestones[i] == before.milestones[i]
    &&& after.status == if after.all_released() {
        BudgetStatus::Executed
    } else {
        before.status
    }
    &&& after.campaign == before.campaign
    &&& after.total_amount == before.total_amount
    &&& after.description == before.description
    &&& after.voting_end == before.voting_end
    &&& after.votes_for == before.votes_for
    &&& after.votes_against == before.votes_against
    &&& after.revision_count == before.revision_count
    &&& after.created_at == before.created_at
    &&& after.bump == before.bump
}

/// Works out what a milestone of `release_percentage` basis points releases
/// from a budget of `total_amount`, in 128 bits so that the product cannot
/// overflow. Nothing where the result does not fit in 64 bits, which takes a
/// percentage above 100%.
pub fn release_amount(total_amount: u64, release_percentage: u16) -> (amount: Option<u64>)
    ensures
        match amount {
            Some(amount) => amount == release_amount_of(total_amount, release_percentage),
            None => release_amount_of(total_amount, release_percentage) > u64::MAX,
        },
        release_percentage <= 10_000 ==> amount is Some && amount->Some_0 <= total_amount,
{
    assert(total_amount * release_percentage <= 0xffff_ffff_ffff_ffff * 0xffff)
        by (nonlinear_arith)
        requires
            total_amount <= 0xffff_ffff_ffff_ffff,
            release_percentage <= 0xffff,
    ;
    let wide: u128 = (total_amount as u128) * (release_percentage as u128) / 10_000;
    assert(release_percentage <= 10_000 ==> (total_amount * release_percentage) / 10_000
        <= total_amount) by (nonlinear_arith);
    if wide > u64::MAX as u128 {
        None
    } else {
        Some(wide as u64)
    }
}

/// Releases one milestone of an approved budget to the organizer, once its
/// date has come at `now`, the current time. On success the milestone is
/// marked released with the amount paid, the campaign's expenses have grown
/// by that amount, and the budget is executed once its last milestone is
/// released.
pub fn handler(ctx: &mut ReleaseMilestone, milestone_index: u8, now: i64) -> (result: Result<
    MilestoneReleased,
    EventError,
>)
    ensures
        match refusal(*old(ctx), milestone_index, now) {
            Some(error) => {
                &&& result == Err::<MilestoneReleased, EventError>(error)
                &&& *final(ctx) == *old(ctx)
            },
            None => {
                &&& result == Ok::<MilestoneReleased, EventError>(
                    MilestoneReleased {
                        budget: old(ctx).budget_key,
                        milestone_index,
                        amount: amount_due(old(ctx).budget, milestone_index as int) as u64,
                        organizer: old(ctx).organizer,
                        timestamp: now,
                    },
                )
                &&& *final(ctx) == (ReleaseMilestone {
                    campaign: Campaign {
                        total_expenses: (old(ctx).campaign.total_expenses + amount_due(
                            old(ctx).budget,
                            milestone_index as int,
                        )) as u64,
                        ..old(ctx).campaign
                    },
                    budget: final(ctx).budget,
                    ..*old(ctx)
                })
                &&& released(
                    old(ctx).budget,
                    final(ctx).budget,
                    milestone_index as int,
                    amount_due(old(ctx).budget, milestone_index as int) as u64,
                )
            },
        },
        old(ctx).budget.status.may_become(final(ctx).budget.status),
        old(ctx).campaign.status.may_become(final(ctx).campaign.status),
        old(ctx).budget.well_formed() ==> final(ctx).budget.well_formed(),
        final(ctx).campaign.total_expenses >= old(ctx).campaign.total_expenses,
        !old(ctx).campaign.distribution_complete ==> final(ctx).campaign.pools_settled(),
{
    if ctx.campaign.organizer != ctx.organizer {
        return Err(EventError::UnauthorizedCampaignAction);
    }
    if ctx.budget.campaign != ctx.campaign_key {
        return Err(EventError::InvalidCampaign);
    }
    if ctx.budget.status != BudgetStatus::Approved {
        return Err(EventError::BudgetNotApproved);
    }
    if milestone_index >= 3 {
        return Err(EventError::MilestoneNotReady);
    }
    let index: usize = milestone_index as usize;
    if !ctx.budget.milestones[index].is_unlocked(now) {
        return Err(EventError::MilestoneNotReady);
    }
    if ctx.budget.milestones[index].released {
        return Err(EventError::MilestoneAlreadyReleased);
    }
    let amount = match release_amount(
        ctx.budget.total_amount,
        ctx.budget.milestones[index].release_percentage,
    ) {
        Some(amount) => amount,
        None => { return Err(EventError::ArithmeticOverflow); },
    };
    let total_expenses = match ctx.campaign.total_expenses.checked_add(amount) {
        Some(total_expenses) => total_expenses,
        None => { return Err(EventError::ArithmeticOverflow); },
    };
    ctx.budget.milestones[index].released = true;
    ctx.budget.milestones[index].released_amount = amount;
    ctx.campaign.total_expenses = total_expenses;
    if ctx.budget.milestones[0].released && ctx.budget.milestones[1].released
        && ctx.budget.milestones[2].released {
        ctx.budget.status = BudgetStatus::Executed;
    }
    Ok(
        MilestoneReleased {
            budget: ctx.budget_key,
            milestone_index,
            amount,
            organizer: ctx.organizer,
            timestamp: now,
        },
    )
}

} // verus!
