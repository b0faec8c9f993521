use crate::errors::EventError;
use crate::pubkey::Pubkey;
use crate::state::{Budget, BudgetStatus, BudgetVote, Contribution};
use vstd::prelude::*;

verus! {

/// The accounts that take part in a vote on a budget.
pub struct VoteOnBudget {
    pub budget: Budget,
    pub budget_key: Pubkey,
    /// The voter's own contribution to the campaign of the budget, which shows
    /// the voter to be a backer.
    pub contribution: Contribution,
    /// The record to fill in: the one vote of this voter on this budget.
    pub vote: BudgetVote,
    pub vote_bump: u8,
    pub voter: Pubkey,
}

/// Why the vote is refused, if it is: the first of the checks that fails.
pub open spec fn refusal(ctx: VoteOnBudget, approve: bool, now: i64) -> Option<EventError> {
    if ctx.contribution.contributor != ctx.voter {
        Some(EventError::NotAContributor)
    } else if ctx.budget.status != BudgetStatus::Pending {
        Some(EventError::BudgetNotPending)
    } else if now >= ctx.budget.voting_end {
        Some(EventError::VotingPeriodEnded)
    } else if ctx.contribution.campaign != ctx.budget.campaign {
        Some(EventError::NotAContributor)
    } else if approve && ctx.budget.votes_for + ctx.contribution.amount > u64::MAX {
        Some(EventError::ArithmeticOverflow)
    } else if !approve && ctx.budget.votes_against + ctx.contribution.amount > u64::MAX {
        Some(EventError::ArithmeticOverflow)
    } else {
        None
    }
}

/// The budget after a vote of weight `power` was counted.
pub open spec fn tallied(budget: Budget, approve: bool, power: u64) -> Budget {
    if approve {
        Budget { votes_for: (budget.votes_for + power) as u64, ..budget }
    } else {
        Budget { votes_against: (budget.votes_against + power) as u64, ..budget }
    }
}

/// Counts a backer's vote for or against a pending budget, with the weight
/// of the backer's contribution. Votes are counted before the vote ends;
/// `now` is the current time.
pub fn handler(ctx: &mut VoteOnBudget, approve: bool, now: i64) -> (result: Result<(), EventError>)
    ensures
        match refusal(*old(ctx), approve, now) {
            Some(error) => result == Err::<(), EventError>(error) && *final(ctx) == *old(ctx),
            None => {
                &&& result is Ok
                &&& *final(ctx) == (VoteOnBudget {
                    budget: tallied(old(ctx).budget, approve, old(ctx).contribution.amount),
                    vote: BudgetVote {
                        budget: old(ctx).budget_key,
                        voter: old(ctx).voter,
                        contribution_amount: old(ctx).contribution.amount,
                        approve,
                        voted_at: now,
                        bump: old(ctx).vote_bump,
                    },
                    ..*old(ctx)
                })
            },
        },
        old(ctx).budget.well_formed() ==> final(ctx).budget.well_formed(),
        final(ctx).budget.status == old(ctx).budget.status,
{
    if ctx.contribution.contributor != ctx.voter {
        return Err(EventError::NotAContributor);
    }
    if ctx.budget.status != BudgetStatus::Pending {
        return Err(EventError::BudgetNotPending);
    }
    if ctx.budget.voting_ended(now) {
        return Err(EventError::VotingPeriodEnded);
    }
    if ctx.contribution.campaign != ctx.budget.campaign {
        return Err(EventError::NotAContributor);
    }
    let vote = BudgetVote {
        budget: ctx.budget_key,
        voter: ctx.voter,
        contribution_amount: ctx.contribution.amount,
        approve,
        voted_at: now,
        bump: ctx.vote_bump,
    };
    let voting_power = vote.voting_power();
    if approve {
        let votes_for = match ctx.budget.votes_for.checked_add(voting_power) {
            Some(votes_for) => votes_for,
            None => { return Err(EventError::ArithmeticOverflow); },
        };
        ctx.budget.votes_for = votes_for;
    } else {
        let votes_against = match ctx.budget.votes_against.checked_add(voting_power) {
            Some(votes_against) => votes_against,
            None => { return Err(EventError::ArithmeticOverflow); },
        };
        ctx.budget.votes_against = votes_against;
    }
    ctx.vote = vote;
    Ok(())
}

} // verus!
