use crate::errors::EventError;
use crate::pubkey::Pubkey;
use crate::state::{Campaign, CampaignStatus, Event};
use vstd::prelude::*;

verus! {

/// The accounts that take part in splitting the profit of an event.
pub struct CalculateDistribution {
    pub campaign: Campaign,
    pub campaign_key: Pubkey,
    /// The event that the campaign funded.
    pub event: Event,
    pub event_key: Pubkey,
    /// Who asks for the split.
    pub authority: Pubkey,
}

/// The three pools that a profit is split into.
pub struct Pools {
    pub backer: u64,
    pub organizer: u64,
    pub platform: u64,
}

/// The organizer's part of a profit: 35%, rounded down.
pub open spec fn organizer_part(profit: nat) -> nat {
    profit * 35 / 100
}

/// The platform's part of a profit: 5%, rounded down.
pub open spec fn platform_part(profit: nat) -> nat {
    profit * 5 / 100
}

/// The backers' part of a profit: 60%, rounded down, and whatever the three
/// roundings left over. So the backers get all that the other two do not.
pub open spec fn backer_part(profit: nat) -> nat {
    profit * 60 / 100 + (profit - (profit * 60 / 100 + organizer_part(profit) + platform_part(
        profit,
    ))) as nat
}

/// What an event earned beyond what was spent on it; zero where it earned
/// no more than that.
pub open spec fn profit_of(revenue: u64, expenses: u64) -> nat {
    if revenue > expenses {
        (revenue - expenses) as nat
    } else {
        0
    }
}

/// Why the profit cannot be split, if it cannot: the first of the checks
/// that fails. The last one is met only by a profit above a 60th of what 64
/// bits hold.
pub open spec fn refusal(ctx: CalculateDistribution, now: i64) -> Option<EventError> {
    if ctx.campaign.status != CampaignStatus::Funded {
        Some(EventError::CampaignNotFunded)
    } else if ctx.event_key != ctx.campaign.event {
        Some(EventError::InvalidEvent)
    } else if ctx.event.campaign != Some(ctx.campaign_key) {
        Some(EventError::InvalidCampaign)
    } else if !(now > ctx.event.end_ts) {
        Some(EventError::EventNotEnded)
    } else if ctx.campaign.distribution_complete {
        Some(EventError::DistributionAlreadyComplete)
    } else if profit_of(ctx.event.ticket_revenue, ctx.campaign.total_expenses) * 60 > u64::MAX {
        Some(EventError::ArithmeticOverflow)
    } else {
        None
    }
}

/// The three parts of a profit add up to the profit: nothing is lost to
/// rounding, and nothing is handed out twice.
pub proof fn law_parts_sum_to_profit(profit: nat)
    ensures
        backer_part(profit) + organizer_part(profit) + platform_part(profit) == profit,
        backer_part(profit) >= profit * 60 / 100,
{
}

/// Splits `profit` into the three pools, or fails where 60 times the profit
/// does not fit in 64 bits.
pub fn split_profit(profit: u64) -> (result: Result<Pools, EventError>)
    ensures
        match result {
            Ok(pools) => {
                &&& profit * 60 <= u64::MAX
                &&& pools.backer == backer_part(profit as nat)
                &&& pools.organizer == organizer_part(profit as nat)
                &&& pools.platform == platform_part(profit as nat)
                &&& pools.backer + pools.organizer + pools.platform == profit
            },
            Err(error) => profit * 60 > u64::MAX && error == EventError::ArithmeticOverflow,
        },
{
    let backer_base = match profit.checked_mul(60) {
        Some(product) => product / 100,
        None => { return Err(EventError::ArithmeticOverflow); },
    };
    let organizer = match profit.checked_mul(35) {
        Some(product) => product / 100,
        None => { return Err(EventError::ArithmeticOverflow); },
    };
    let platform = match profit.checked_mul(5) {
        Some(product) => product / 100,
        None => { return Err(EventError::ArithmeticOverflow); },
    };
    let distributed = match backer_base.checked_add(organizer) {
        Some(sum) => match sum.checked_add(platform) {
            Some(sum) => sum,
            None => { return Err(EventError::ArithmeticOverflow); },
        },
        None => { return Err(EventError::ArithmeticOverflow); },
    };
    let remainder = match profit.checked_sub(distributed) {
        Some(remainder) => remainder,
        None => { return Err(EventError::ArithmeticOverflow); },
    };
    let backer = match backer_base.checked_add(remainder) {
        Some(backer) => backer,
        None => { return Err(EventError::ArithmeticOverflow); },
    };
    Ok(Pools { backer, organizer, platform })
}

/// Splits the profit of an ended event between backers, organizer and
/// platform, once. The campaign's revenue is set to the event's ticket
/// revenue; where that exceeds the campaign's expenses, the difference is
/// split 60 / 35 / 5 with every leftover lamport going to the backers; where
/// it does not, all three pools are zero. Either way the campaign is
/// completed. `now` is the current time.
pub fn handler(ctx: &mut CalculateDistribution, now: i64) -> (result: Result<(), EventError>)
    ensures
        match refusal(*old(ctx), now) {
            Some(error) => result == Err::<(), EventError>(error) && *final(ctx) == *old(ctx),
            None => {
                &&& result is Ok
                &&& *final(ctx) == (CalculateDistribution {
                    campaign: Campaign {
                        total_revenue: old(ctx).event.ticket_revenue,
                        backer_pool: backer_part(
                            profit_of(
                                old(ctx).event.ticket_revenue,
                                old(ctx).campaign.total_expenses,
                            ),
                        ) as u64,
                        organizer_pool: organizer_part(
                            profit_of(
                                old(ctx).event.ticket_revenue,
                                old(ctx).campaign.total_expenses,
                            ),
                        ) as u64,
                        platform_pool: platform_part(
                            profit_of(
                                old(ctx).event.ticket_revenue,
                                old(ctx).campaign.total_expenses,
                            ),
                        ) as u64,
                        distribution_complete: true,
                        status: CampaignStatus::Completed,
                        ..old(ctx).campaign
                    },
                    ..*old(ctx)
                })
                &&& final(ctx).campaign.backer_pool + final(ctx).campaign.organizer_pool + final(ctx).campaign.platform_pool
                    == final(ctx).campaign.profit()
                &&& final(ctx).campaign.pools_settled()
            },
        },
        old(ctx).campaign.status.may_become(final(ctx).campaign.status),
        old(ctx).campaign.pools_settled() ==> final(ctx).campaign.pools_settled(),
{
    if ctx.campaign.status != CampaignStatus::Funded {
        return Err(EventError::CampaignNotFunded);
    }
    if ctx.event_key != ctx.campaign.event {
        return Err(EventError::InvalidEvent);
    }
    match ctx.event.campaign {
        Some(linked) => {
            if linked != ctx.campaign_key {
                return Err(EventError::InvalidCampaign);
            }
        },
        None => { return Err(EventError::InvalidCampaign); },
    }
    if !(now > ctx.event.end_ts) {
        return Err(EventError::EventNotEnded);
    }
    if ctx.campaign.distribution_complete {
        return Err(EventError::DistributionAlreadyComplete);
    }
    let revenue = ctx.event.ticket_revenue;
    let expenses = ctx.campaign.total_expenses;
    let pools = if revenue > expenses {
        match split_profit(revenue - expenses) {
            Ok(pools) => pools,
            Err(error) => { return Err(error); },
        }
    } else {
        Pools { backer: 0, organizer: 0, platform: 0 }
    };
    ctx.campaign.total_revenue = revenue;
    ctx.campaign.backer_pool = pools.backer;
    ctx.campaign.organizer_pool = pools.organizer;
    ctx.campaign.platform_pool = pools.platform;
    ctx.campaign.distribution_complete = true;
    ctx.campaign.status = CampaignStatus::Completed;
    Ok(())
}

} // verus!
