use crate::errors::EventError;
use crate::pubkey::Pubkey;
use crate::state::{Campaign, CampaignStatus, Contribution};
use vstd::prelude::*;

verus! {

/// The accounts that take part in a backer's claim on the profit.
pub struct ClaimBackerProfit {
    pub campaign: Campaign,
    pub campaign_key: Pubkey,
    pub contribution: Contribution,
    /// What the escrow of the campaign holds, in lamports.
    pub escrow_lamports: u64,
    /// Who claims; must be the one who contributed.
    pub contributor: Pubkey,
}

/// The backer's share of the backer pool in this campaign.
pub open spec fn share(ctx: ClaimBackerProfit) -> u64 {
    ctx.contribution.spec_calculate_share(ctx.campaign.backer_pool, ctx.campaign.total_raised)
}

/// Why the claim is refused, if it is: the first of the checks that fails.
pub open spec fn refusal(ctx: ClaimBackerProfit) -> Option<EventError> {
    if !ctx.campaign.distribution_complete {
        Some(EventError::DistributionNotComplete)
    } else if ctx.campaign.status != CampaignStatus::Completed {
        Some(EventError::InvalidCampaignStatus)
    } else if ctx.contribution.campaign != ctx.campaign_key {
        Some(EventError::InvalidContribution)
    } else if ctx.contribution.contributor != ctx.contributor {
        Some(EventError::UnauthorizedClaim)
    } else if ctx.contribution.profit_claimed {
        Some(EventError::ProfitAlreadyClaimed)
    } else if ctx.escrow_lamports < share(ctx) {
        Some(EventError::InsufficientBalance)
    } else {
        None
    }
}

/// The accounts after a claim that was not refused: the share is written
/// down and marked as claimed.
pub open spec fn claimed(ctx: ClaimBackerProfit) -> ClaimBackerProfit {
    ClaimBackerProfit {
        contribution: Contribution {
            profit_share: share(ctx),
            profit_claimed: true,
            ..ctx.contribution
        },
        ..ctx
    }
}

/// Pays a backer of a completed campaign the share of the backer pool that
/// matches the contribution. The result is what moves from the campaign's
/// escrow to the backer; a share of zero is a valid claim that moves
/// nothing. A share is claimed once: later attempts are refused.
pub fn handler(ctx: &mut ClaimBackerProfit) -> (result: Result<u64, EventError>)
    ensures
        match refusal(*old(ctx)) {
            Some(error) => result == Err::<u64, EventError>(error) && *final(ctx) == *old(ctx),
            None => {
                &&& result == Ok::<u64, EventError>(share(*old(ctx)))
                &&& *final(ctx) == claimed(*old(ctx))
            },
        },
        old(ctx).contribution.profit_claimed ==> result is Err,
        old(ctx).contribution.agrees_with(old(ctx).campaign) ==> final(ctx).contribution.agrees_with(final(ctx).campaign),
        final(ctx).campaign == old(ctx).campaign,
{
    if !ctx.campaign.distribution_complete {
        return Err(EventError::DistributionNotComplete);
    }
    if ctx.campaign.status != CampaignStatus::Completed {
        return Err(EventError::InvalidCampaignStatus);
    }
    if ctx.contribution.campaign != ctx.campaign_key {
        return Err(EventError::InvalidContribution);
    }
    if ctx.contribution.contributor != ctx.contributor {
        return Err(EventError::UnauthorizedClaim);
    }
    if ctx.contribution.profit_claimed {
        return Err(EventError::ProfitAlreadyClaimed);
    }
    let share = ctx.contribution.calculate_share(
        ctx.campaign.backer_pool,
        ctx.campaign.total_raised,
    );
    if share > 0 && ctx.escrow_lamports < share {
        return Err(EventError::InsufficientBalance);
    }
    ctx.contribution.profit_share = share;
    ctx.contribution.profit_claimed = true;
    Ok(share)
}

/// A share is paid once. After a claim that was not refused, the same claim
/// is refused as already made, whatever the escrow holds by then; and a
/// refused claim moves no funds and changes nothing.
pub proof fn law_claim_is_paid_once(ctx: ClaimBackerProfit, escrow_lamports_later: u64)
    requires
        refusal(ctx) is None,
    ensures
        refusal(ClaimBackerProfit { escrow_lamports: escrow_lamports_later, ..claimed(ctx) })
            == Some(EventError::ProfitAlreadyClaimed),
{
}

} // verus!
