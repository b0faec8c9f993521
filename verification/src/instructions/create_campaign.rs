use crate::errors::EventError;
use crate::pubkey::Pubkey;
use crate::state::{Campaign, CampaignStatus, Event};
use vstd::prelude::*;

verus! {

/// The smallest funding goal that a campaign can have, in lamports.
pub const MIN_FUNDING_GOAL: u64 = 100_000_000;

/// The accounts that take part in creating a campaign.
pub struct CreateCampaign {
    pub event: Event,
    pub event_key: Pubkey,
    /// The record to fill in; its address is `campaign_key`.
    pub campaign: Campaign,
    pub campaign_key: Pubkey,
    pub campaign_bump: u8,
    /// Who creates the campaign; must be the authority of the event.
    pub organizer: Pubkey,
    /// The account named as the authority of the event.
    pub authority: Pubkey,
}

/// Why the campaign cannot be created, if it cannot: the first of the
/// checks that fails.
pub open spec fn refusal(ctx: CreateCampaign, funding_goal: u64, deadline: i64, now: i64) -> Option<
    EventError,
> {
    if ctx.event.authority != ctx.authority {
        Some(EventError::UnauthorizedCampaignAction)
    } else if ctx.event.authority != ctx.organizer {
        Some(EventError::UnauthorizedCampaignAction)
    } else if !(deadline > now) {
        Some(EventError::DeadlineInPast)
    } else if !(deadline < ctx.event.start_ts) {
        Some(EventError::DeadlineAfterEventStart)
    } else if !(funding_goal >= 100_000_000) {
        Some(EventError::InvalidContributionAmount)
    } else {
        None
    }
}

/// A campaign as it is right after it was created: pending, with nothing
/// raised, nothing spent and nothing split.
pub open spec fn created_campaign(
    ctx: CreateCampaign,
    funding_goal: u64,
    deadline: i64,
    now: i64,
) -> Campaign {
    Campaign {
        event: ctx.event_key,
        organizer: ctx.organizer,
        funding_goal,
        total_raised: 0,
        deadline,
        status: CampaignStatus::Pending,
        total_contributors: 0,
        created_at: now,
        total_expenses: 0,
        total_revenue: 0,
        backer_pool: 0,
        organizer_pool: 0,
        platform_pool: 0,
        distribution_complete: false,
        organizer_claimed: false,
        bump: ctx.campaign_bump,
    }
}

/// Creates the campaign that funds an event and links the two. The
/// deadline lies after `now`, the current time, and before the event starts;
/// the goal is at least `MIN_FUNDING_GOAL`.
pub fn handler(ctx: &mut CreateCampaign, funding_goal: u64, deadline: i64, now: i64) -> (result:
    Result<(), EventError>)
    ensures
        match refusal(*old(ctx), funding_goal, deadline, now) {
            Some(error) => result == Err::<(), EventError>(error) && *final(ctx) == *old(ctx),
            None => {
                &&& result is Ok
                &&& *final(ctx) == (CreateCampaign {
                    campaign: created_campaign(*old(ctx), funding_goal, deadline, now),
                    event: Event {
                        crowdfunding_enabled: true,
                        campaign: Some(old(ctx).campaign_key),
                        ..old(ctx).event
                    },
                    ..*old(ctx)
                })
                &&& final(ctx).campaign.pools_settled()
                &&& old(ctx).event.well_formed() ==> final(ctx).event.well_formed()
            },
        },
{
    if ctx.event.authority != ctx.authority {
        return Err(EventError::UnauthorizedCampaignAction);
    }
    if ctx.event.authority != ctx.organizer {
        return Err(EventError::UnauthorizedCampaignAction);
    }
    if !(deadline > now) {
        return Err(EventError::DeadlineInPast);
    }
    if !(deadline < ctx.event.start_ts) {
        return Err(EventError::DeadlineAfterEventStart);
    }
    if !(funding_goal >= MIN_FUNDING_GOAL) {
        return Err(EventError::InvalidContributionAmount);
    }
    ctx.campaign = Campaign {
        event: ctx.event_key,
        organizer: ctx.organizer,
        funding_goal,
        total_raised: 0,
        deadline,
        status: CampaignStatus::Pending,
        total_contributors: 0,
        created_at: now,
        total_expenses: 0,
        total_revenue: 0,
        backer_pool: 0,
        organizer_pool: 0,
        platform_pool: 0,
        distribution_complete: false,
        organizer_claimed: false,
        bump: ctx.campaign_bump,
    };
    ctx.event.crowdfunding_enabled = true;
    ctx.event.campaign = Some(ctx.campaign_key);
    Ok(())
}

} // verus!
