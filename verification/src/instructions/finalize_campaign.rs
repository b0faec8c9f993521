use crate::errors::EventError;
use crate::pubkey::Pubkey;
use crate::state::{Campaign, CampaignStatus};
use vstd::prelude::*;

verus! {

/// The accounts that take part in finalizing a campaign.
pub struct FinalizeCampaign {
    pub campaign: Campaign,
    pub campaign_key: Pubkey,
}

/// Audit record of a finalized campaign.
#[derive(Clone, Copy, Debug)]
pub struct CampaignFinalized {
    pub campaign: Pubkey,
    pub status: CampaignStatus,
    pub total_raised: u64,
    pub total_contributors: u32,
    pub timestamp: i64,
}

/// How a campaign that can be finalized ends: funded where the goal was
/// reached, whether or not the deadline has passed; failed otherwise.
pub open spec fn outcome(campaign: Campaign) -> CampaignStatus {
    if campaign.total_raised >= campaign.funding_goal {
        CampaignStatus::Funded
    } else {
        CampaignStatus::Failed
    }
}

/// Finalizes a pending campaign, which anyone may ask for as soon as the
/// goal is reached or the deadline has passed at `now`, the current time. A
/// campaign is finalized once: later attempts are refused.
pub fn handler(ctx: &mut FinalizeCampaign, now: i64) -> (result: Result<
    CampaignFinalized,
    EventError,
>)
    ensures
        if old(ctx).campaign.spec_can_finalize(now) {
            &&& result == Ok::<CampaignFinalized, EventError>(
                CampaignFinalized {
                    campaign: old(ctx).campaign_key,
                    status: outcome(old(ctx).campaign),
                    total_raised: old(ctx).campaign.total_raised,
                    total_contributors: old(ctx).campaign.total_contributors,
                    timestamp: now,
                },
            )
            &&& *final(ctx) == (FinalizeCampaign {
                campaign: Campaign { status: outcome(old(ctx).campaign), ..old(ctx).campaign },
                ..*old(ctx)
            })
        } else {
            &&& result == Err::<CampaignFinalized, EventError>(EventError::AlreadyFinalized)
            &&& *final(ctx) == *old(ctx)
        },
        old(ctx).campaign.status.may_become(final(ctx).campaign.status),
        old(ctx).campaign.pools_settled() ==> final(ctx).campaign.pools_settled(),
{
    if !ctx.campaign.can_finalize(now) {
        return Err(EventError::AlreadyFinalized);
    }
    let status = if ctx.campaign.goal_reached() {
        CampaignStatus::Funded
    } else {
        CampaignStatus::Failed
    };
    ctx.campaign.status = status;
    Ok(
        CampaignFinalized {
            campaign: ctx.campaign_key,
            status,
            total_raised: ctx.campaign.total_raised,
            total_contributors: ctx.campaign.total_contributors,
            timestamp: now,
        },
    )
}

} // verus!
