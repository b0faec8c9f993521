use crate::errors::EventError;
use crate::pubkey::Pubkey;
use crate::state::contribution::backed_total;
use crate::state::{Campaign, CampaignStatus, Contribution};
use vstd::prelude::*;

verus! {

/// The accounts that take part in a contribution.
pub struct Contribute {
    pub campaign: Campaign,
    pub campaign_key: Pubkey,
    /// The record to fill in: the one record of this contributor for this
    /// campaign.
    pub contribution: Contribution,
    pub contribution_bump: u8,
    pub contributor: Pubkey,
}

/// Why the contribution is refused, if it is: the first of the checks that
/// fails.
pub open spec fn refusal(ctx: Contribute, amount: u64, now: i64) -> Option<EventError> {
    if ctx.campaign.status != CampaignStatus::Pending {
        Some(EventError::CampaignNotActive)
    } else if now > ctx.campaign.deadline {
        Some(EventError::CampaignDeadlinePassed)
    } else if amount == 0 {
        Some(EventError::InvalidContributionAmount)
    } else if ctx.campaign.total_raised + amount > u64::MAX {
        Some(EventError::ArithmeticOverflow)
    } else if ctx.campaign.total_contributors + 1 > u32::MAX {
        Some(EventError::ArithmeticOverflow)
    } else {
        None
    }
}

/// The accounts after a contribution that was not refused: the campaign has
/// raised `amount` more from one contributor more, and the contribution
/// record is written.
pub open spec fn contributed(ctx: Contribute, amount: u64, now: i64) -> Contribute {
    Contribute {
        campaign: Campaign {
            total_raised: (ctx.campaign.total_raised + amount) as u64,
            total_contributors: (ctx.campaign.total_contributors + 1) as u32,
            ..ctx.campaign
        },
        contribution: Contribution {
            campaign: ctx.campaign_key,
            contributor: ctx.contributor,
            amount,
            contributed_at: now,
            refunded: false,
            profit_share: 0,
            profit_claimed: false,
            bump: ctx.contribution_bump,
        },
        ..ctx
    }
}

/// Takes a contribution of `amount` lamports, which moves from the
/// contributor to the campaign's escrow. The campaign must be pending and
/// its deadline must not have passed at `now`, the current time. On success
/// the campaign has raised `amount` more from one contributor more, and the
/// contribution record is written.
pub fn handler(ctx: &mut Contribute, amount: u64, now: i64) -> (result: Result<(), EventError>)
    ensures
        match refusal(*old(ctx), amount, now) {
            Some(error) => result == Err::<(), EventError>(error) && *final(ctx) == *old(ctx),
            None => {
                &&& result is Ok
                &&& *final(ctx) == contributed(*old(ctx), amount, now)
                &&& final(ctx).contribution.well_formed()
            },
        },
        old(ctx).campaign.status.may_become(final(ctx).campaign.status),
        old(ctx).campaign.pools_settled() ==> final(ctx).campaign.pools_settled(),
{
    if !ctx.campaign.is_active() {
        return Err(EventError::CampaignNotActive);
    }
    if ctx.campaign.deadline_passed(now) {
        return Err(EventError::CampaignDeadlinePassed);
    }
    if amount == 0 {
        return Err(EventError::InvalidContributionAmount);
    }
    let total_raised = match ctx.campaign.total_raised.checked_add(amount) {
        Some(total_raised) => total_raised,
        None => { return Err(EventError::ArithmeticOverflow); },
    };
    let total_contributors = match ctx.campaign.total_contributors.checked_add(1) {
        Some(total_contributors) => total_contributors,
        None => { return Err(EventError::ArithmeticOverflow); },
    };
    ctx.contribution = Contribution {
        campaign: ctx.campaign_key,
        contributor: ctx.contributor,
        amount,
        contributed_at: now,
        refunded: false,
        profit_share: 0,
        profit_claimed: false,
        bump: ctx.contribution_bump,
    };
    ctx.campaign.total_raised = total_raised;
    ctx.campaign.total_contributors = total_contributors;
    Ok(())
}

/// The campaign's books stay right. Where the campaign has raised exactly
/// what the contributions made so far have at stake, it still has after one
/// more contribution, counted with the others.
pub proof fn law_contribution_keeps_the_books(
    ctx: Contribute,
    amount: u64,
    now: i64,
    earlier: Seq<Contribution>,
)
    requires
        refusal(ctx, amount, now) is None,
        ctx.campaign.total_raised == backed_total(earlier),
    ensures
        contributed(ctx, amount, now).campaign.total_raised == backed_total(
            earlier.push(contributed(ctx, amount, now).contribution),
        ),
{
    let all = earlier.push(contributed(ctx, amount, now).contribution);
    assert(all.drop_last() =~= earlier);
}

} // verus!
