use crate::errors::EventError;
use crate::pubkey::Pubkey;
use crate::state::{Campaign, CampaignStatus};
use vstd::prelude::*;

verus! {

/// The accounts that take part in the organizer's claim on the profit.
pub struct ClaimOrganizerProfit {
    pub campaign: Campaign,
    pub campaign_key: Pubkey,
    /// What the escrow of the campaign holds, in lamports.
    pub escrow_lamports: u64,
    /// Who claims; must be the organizer of the campaign.
    pub organizer: Pubkey,
}

/// Why the claim is refused, if it is: the first of the checks that fails.
pub open spec fn refusal(ctx: ClaimOrganizerProfit) -> Option<EventError> {
    if ctx.campaign.organizer != ctx.organizer {
        Some(EventError::UnauthorizedClaim)
    } else if !ctx.campaign.distribution_complete {
        Some(EventError::DistributionNotComplete)
    } else if ctx.campaign.status != CampaignStatus::Completed {
        Some(EventError::InvalidCampaignStatus)
    } else if ctx.campaign.organizer_claimed {
        Some(EventError::OrganizerAlreadyClaimed)
    } else if ctx.escrow_lamports < ctx.campaign.organizer_pool {
        Some(EventError::InsufficientBalance)
    } else {
        None
    }
}

/// The accounts after a claim that was not refused.
pub open spec fn claimed(ctx: ClaimOrganizerProfit) -> ClaimOrganizerProfit {
    ClaimOrganizerProfit { campaign: Campaign { organizer_claimed: true, ..ctx.campaign }, ..ctx }
}

/// Pays the organizer of a completed campaign the organizer pool. The
/// result is what moves from the campaign's escrow to the organizer; a pool
/// of zero is a valid claim that moves nothing. The pool is claimed once:
/// later attempts are refused.
pub fn handler(ctx: &mut ClaimOrganizerProfit) -> (result: Result<u64, EventError>)
    ensures
        match refusal(*old(ctx)) {
            Some(error) => result == Err::<u64, EventError>(error) && *final(ctx) == *old(ctx),
            None => {
                &&& result == Ok::<u64, EventError>(old(ctx).campaign.organizer_pool)
                &&& *final(ctx) == claimed(*old(ctx))
            },
        },
        old(ctx).campaign.organizer_claimed ==> result is Err,
        old(ctx).campaign.status.may_become(final(ctx).campaign.status),
        old(ctx).campaign.pools_settled() ==> final(ctx).campaign.pools_settled(),
{
    if ctx.campaign.organizer != ctx.organizer {
        return Err(EventError::UnauthorizedClaim);
    }
    if !ctx.campaign.distribution_complete {
        return Err(EventError::DistributionNotComplete);
    }
    if ctx.campaign.status != CampaignStatus::Completed {
        return Err(EventError::InvalidCampaignStatus);
    }
    if ctx.campaign.organizer_claimed {
        return Err(EventError::OrganizerAlreadyClaimed);
    }
    let organizer_share = ctx.campaign.organizer_pool;
    if organizer_share > 0 && ctx.escrow_lamports < organizer_share {
        return Err(EventError::InsufficientBalance);
    }
    ctx.campaign.organizer_claimed = true;
    Ok(organizer_share)
}

/// The organizer pool is paid once. After a claim that was not refused, the
/// same claim is refused as already made, whatever the escrow holds by then.
pub proof fn law_claim_is_paid_once(ctx: ClaimOrganizerProfit, escrow_lamports_later: u64)
    requires
        refusal(ctx) is None,
    ensures
        refusal(ClaimOrganizerProfit { escrow_lamports: escrow_lamports_later, ..claimed(ctx) })
            == Some(EventError::OrganizerAlreadyClaimed),
{
}

} // verus!
