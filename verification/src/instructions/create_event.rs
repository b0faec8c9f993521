use crate::errors::EventError;
use crate::pubkey::Pubkey;
use crate::state::event::{stored_len, Event};
use vstd::prelude::*;

verus! {

/// The accounts that take part in creating an event.
pub struct CreateEvent {
    /// The record to fill in; its address is `event_key`.
    pub event: Event,
    pub event_key: Pubkey,
    /// Who creates the event and becomes its authority.
    pub organizer: Pubkey,
    /// Where the event's funds will be paid out to.
    pub treasury: Pubkey,
    pub event_bump: u8,
}

/// Audit record of a created event.
pub struct EventCreated {
    pub event_pubkey: Pubkey,
    pub authority: Pubkey,
    pub metadata_uri: String,
    pub timestamp: i64,
}

/// Why an event with these values cannot be created, if it cannot: the first
/// of the checks that fails.
pub open spec fn refusal(
    metadata_uri: Seq<char>,
    start_ts: i64,
    end_ts: i64,
    total_supply: u32,
    platform_split_bps: u16,
) -> Option<EventError> {
    if stored_len(metadata_uri) > 200 {
        Some(EventError::MetadataUriTooLong)
    } else if !(start_ts < end_ts) {
        Some(EventError::InvalidTimestamps)
    } else if total_supply == 0 {
        Some(EventError::ZeroSupply)
    } else if platform_split_bps > 10_000 {
        Some(EventError::InvalidPlatformSplit)
    } else {
        None
    }
}

/// The record of an event right after it was created.
pub open spec fn created_event(
    ctx: CreateEvent,
    metadata_uri: String,
    start_ts: i64,
    end_ts: i64,
    total_supply: u32,
    platform_split_bps: u16,
) -> Event {
    Event {
        authority: ctx.organizer,
        metadata_uri,
        start_ts,
        end_ts,
        total_supply,
        allocated_supply: 0,
        treasury: ctx.treasury,
        platform_split_bps,
        canceled: false,
        crowdfunding_enabled: false,
        campaign: None,
        ticket_revenue: 0,
        bump: ctx.event_bump,
    }
}

/// Creates an event owned by the organizer, with no tier, no campaign and no
/// revenue yet. The URI takes at most 200 bytes, the event starts before it
/// ends, has at least one ticket, and gives the platform at most 10000 basis
/// points. `now` is the current time.
pub fn handler(
    ctx: &mut CreateEvent,
    event_id: String,
    metadata_uri: String,
    start_ts: i64,
    end_ts: i64,
    total_supply: u32,
    platform_split_bps: u16,
    now: i64,
) -> (result: Result<EventCreated, EventError>)
    ensures
        match refusal(metadata_uri@, start_ts, end_ts, total_supply, platform_split_bps) {
            Some(error) => result == Err::<EventCreated, EventError>(error) && *final(ctx) == *old(
                ctx,
            ),
            None => {
                &&& result == Ok::<EventCreated, EventError>(
                    EventCreated {
                        event_pubkey: old(ctx).event_key,
                        authority: old(ctx).organizer,
                        metadata_uri,
                        timestamp: now,
                    },
                )
                &&& *final(ctx) == (CreateEvent {
                    event: created_event(
                        *old(ctx),
                        metadata_uri,
                        start_ts,
                        end_ts,
                        total_supply,
                        platform_split_bps,
                    ),
                    ..*old(ctx)
                })
                &&& final(ctx).event.well_formed()
            },
        },
{
    if metadata_uri.as_str().len() > Event::MAX_METADATA_URI_LENGTH {
        return Err(EventError::MetadataUriTooLong);
    }
    if !(start_ts < end_ts) {
        return Err(EventError::InvalidTimestamps);
    }
    if total_supply == 0 {
        return Err(EventError::ZeroSupply);
    }
    if platform_split_bps > Event::MAX_PLATFORM_SPLIT_BPS {
        return Err(EventError::InvalidPlatformSplit);
    }
    ctx.event = Event {
        authority: ctx.organizer,
        metadata_uri: metadata_uri.clone(),
        start_ts,
        end_ts,
        total_supply,
        allocated_supply: 0,
        treasury: ctx.treasury,
        platform_split_bps,
        canceled: false,
        crowdfunding_enabled: false,
        campaign: None,
        ticket_revenue: 0,
        bump: ctx.event_bump,
    };
    Ok(
        EventCreated {
            event_pubkey: ctx.event_key,
            authority: ctx.organizer,
            metadata_uri,
            timestamp: now,
        },
    )
}

} // verus!
