use crate::errors::EventError;
use crate::pubkey::Pubkey;
use crate::state::event::{stored_len, Event};
use crate::state::ticket_tier::supply_total;
use crate::state::TicketTier;
use vstd::prelude::*;

verus! {

/// The accounts that take part in creating a ticket tier.
pub struct CreateTicketTier {
    /// The record to fill in; its address is `tier_key`.
    pub tier: TicketTier,
    pub tier_key: Pubkey,
    pub event: Event,
    pub event_key: Pubkey,
    /// Who asks for the tier; must be the authority of the event.
    pub authority: Pubkey,
    pub tier_bump: u8,
}

/// Audit record of a created tier.
pub struct TicketTierCreated {
    pub event_pubkey: Pubkey,
    pub tier_pubkey: Pubkey,
    pub tier_id: String,
    pub price_lamports: u64,
    pub max_supply: u32,
    pub metadata_uri: String,
    pub tier_index: u8,
    pub timestamp: i64,
}

/// Why the tier cannot be created, if it cannot: the first of the checks
/// that fails. The last one keeps the tiers of an event within its total
/// supply.
pub open spec fn refusal(
    ctx: CreateTicketTier,
    metadata_uri: Seq<char>,
    price_lamports: u64,
    max_supply: u32,
) -> Option<EventError> {
    if ctx.event.authority != ctx.authority {
        Some(EventError::UnauthorizedTierCreation)
    } else if stored_len(metadata_uri) > 200 {
        Some(EventError::MetadataUriTooLong)
    } else if price_lamports == 0 {
        Some(EventError::InvalidPrice)
    } else if ctx.event.allocated_supply + max_supply > ctx.event.total_supply {
        Some(EventError::ExceedsTotalSupply)
    } else {
        None
    }
}

/// Creates a tier of `max_supply` tickets at `price_lamports` each and
/// counts its tickets against the total supply of the event. `now` is the
/// current time.
pub fn handler(
    ctx: &mut CreateTicketTier,
    tier_id: String,
    metadata_uri: String,
    price_lamports: u64,
    max_supply: u32,
    royalty_bps: u16,
    tier_index: u8,
    resale_enabled: bool,
    now: i64,
) -> (result: Result<TicketTierCreated, EventError>)
    ensures
        match refusal(*old(ctx), metadata_uri@, price_lamports, max_supply) {
            Some(error) => result == Err::<TicketTierCreated, EventError>(error) && *final(ctx)
                == *old(ctx),
            None => {
                &&& result == Ok::<TicketTierCreated, EventError>(
                    TicketTierCreated {
                        event_pubkey: old(ctx).event_key,
                        tier_pubkey: old(ctx).tier_key,
                        tier_id,
                        price_lamports,
                        max_supply,
                        metadata_uri,
                        tier_index,
                        timestamp: now,
                    },
                )
                &&& *final(ctx) == (CreateTicketTier {
                    tier: TicketTier {
                        event: old(ctx).event_key,
                        price_lamports,
                        max_supply,
                        current_supply: 0,
                        metadata_uri,
                        royalty_bps,
                        resale_enabled,
                        tier_index,
                        bump: old(ctx).tier_bump,
                    },
                    event: Event {
                        allocated_supply: (old(ctx).event.allocated_supply + max_supply) as u32,
                        ..old(ctx).event
                    },
                    ..*old(ctx)
                })
                &&& final(ctx).event.allocated_supply <= final(ctx).event.total_supply
                &&& old(ctx).event.well_formed() ==> final(ctx).event.well_formed()
                &&& final(ctx).tier.well_formed()
            },
        },
{
    if ctx.event.authority != ctx.authority {
        return Err(EventError::UnauthorizedTierCreation);
    }
    if metadata_uri.as_str().len() > TicketTier::MAX_METADATA_URI_LENGTH {
        return Err(EventError::MetadataUriTooLong);
    }
    if price_lamports == 0 {
        return Err(EventError::InvalidPrice);
    }
    let new_allocated = match ctx.event.allocated_supply.checked_add(max_supply) {
        Some(new_allocated) => new_allocated,
        None => { return Err(EventError::ExceedsTotalSupply); },
    };
    if new_allocated > ctx.event.total_supply {
        return Err(EventError::ExceedsTotalSupply);
    }
    ctx.event.allocated_supply = new_allocated;
    ctx.tier = TicketTier {
        event: ctx.event_key,
        price_lamports,
        max_supply,
        current_supply: 0,
        metadata_uri: metadata_uri.clone(),
        royalty_bps,
        resale_enabled,
        tier_index,
        bump: ctx.tier_bump,
    };
    Ok(
        TicketTierCreated {
            event_pubkey: ctx.event_key,
            tier_pubkey: ctx.tier_key,
            tier_id,
            price_lamports,
            max_supply,
            metadata_uri,
            tier_index,
            timestamp: now,
        },
    )
}

/// The tiers of an event never promise more tickets than the event has.
/// Where the event's allocated supply is what its tiers were created for, it
/// still is after one more tier was created, and it stays within the total
/// supply.
pub proof fn law_tiers_stay_within_supply(
    ctx: CreateTicketTier,
    metadata_uri: Seq<char>,
    price_lamports: u64,
    max_supply: u32,
    earlier: Seq<TicketTier>,
    created: TicketTier,
)
    requires
        refusal(ctx, metadata_uri, price_lamports, max_supply) is None,
        ctx.event.allocated_supply == supply_total(earlier),
        created.max_supply == max_supply,
    ensures
        ctx.event.allocated_supply + max_supply == supply_total(earlier.push(created)),
        supply_total(earlier.push(created)) <= ctx.event.total_supply,
{
    assert(earlier.push(created).drop_last() =~= earlier);
}

} // verus!
