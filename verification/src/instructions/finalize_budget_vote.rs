use crate::errors::EventError;
use crate::pubkey::Pubkey;
use crate::state::{Budget, BudgetStatus};
use vstd::prelude::*;

verus! {

/// The accounts that take part in closing the vote on a budget.
pub struct FinalizeBudgetVote {
    pub budget: Budget,
    pub budget_key: Pubkey,
}

/// Audit record of a closed vote.
#[derive(Clone, Copy, Debug)]
pub struct BudgetFinalized {
    pub budget: Pubkey,
    pub status: BudgetStatus,
    pub votes_for: u64,
    pub votes_against: u64,
    pub timestamp: i64,
}

/// Why the vote cannot be closed, if it cannot: the first of the checks
/// that fails.
pub open spec fn refusal(ctx: FinalizeBudgetVote, now: i64) -> Option<EventError> {
    if ctx.budget.status != BudgetStatus::Pending {
        Some(EventError::BudgetNotPending)
    } else if !(now >= ctx.budget.voting_end) {
        Some(EventError::VotingPeriodNotEnded)
    } else {
        None
    }
}

/// How the vote on a budget ends: approved where more lamports voted for
/// than against and at least one voted for; rejected otherwise.
pub open spec fn outcome(budget: Budget) -> BudgetStatus {
    if budget.spec_is_approved() {
        BudgetStatus::Approved
    } else {
        BudgetStatus::Rejected
    }
}

/// Closes the vote on a pending budget, which anyone may ask for once the
/// vote has ended at `now`, the current time. A vote is closed once: later
/// attempts are refused.
pub fn handler(ctx: &mut FinalizeBudgetVote, now: i64) -> (result: Result<
    BudgetFinalized,
    EventError,
>)
    ensures
        match refusal(*old(ctx), now) {
            Some(error) => {
                &&& result == Err::<BudgetFinalized, EventError>(error)
                &&& *final(ctx) == *old(ctx)
            },
            None => {
                &&& result == Ok::<BudgetFinalized, EventError>(
                    BudgetFinalized {
                        budget: old(ctx).budget_key,
                        status: outcome(old(ctx).budget),
                        votes_for: old(ctx).budget.votes_for,
                        votes_against: old(ctx).budget.votes_against,
                        timestamp: now,
                    },
                )
                &&& *final(ctx) == (FinalizeBudgetVote {
                    budget: Budget { status: outcome(old(ctx).budget), ..old(ctx).budget },
                    ..*old(ctx)
                })
            },
        },
        old(ctx).budget.status.may_become(final(ctx).budget.status),
        old(ctx).budget.well_formed() ==> final(ctx).budget.well_formed(),
{
    if ctx.budget.status != BudgetStatus::Pending {
        return Err(EventError::BudgetNotPending);
    }
    if !ctx.budget.voting_ended(now) {
        return Err(EventError::VotingPeriodNotEnded);
    }
    let status = if ctx.budget.is_approved() {
        BudgetStatus::Approved
    } else {
        BudgetStatus::Rejected
    };
    ctx.budget.status = status;
    Ok(
        BudgetFinalized {
            budget: ctx.budget_key,
            status,
            votes_for: ctx.budget.votes_for,
            votes_against: ctx.budget.votes_against,
            timestamp: now,
        },
    )
}

} // verus!
