use crate::errors::EventError;
use crate::pubkey::Pubkey;
use crate::state::Event;
use vstd::prelude::*;

verus! {

/// The accounts that take part in closing an event.
pub struct CloseEvent {
    pub event: Event,
    pub event_key: Pubkey,
    /// What the escrow of the event holds, in lamports.
    pub escrow_lamports: u64,
    /// Who closes the event; must be its authority.
    pub authority: Pubkey,
}

/// Audit record of a closed event.
#[derive(Clone, Copy, Debug)]
pub struct EventClosed {
    pub event_pubkey: Pubkey,
    pub authority: Pubkey,
    pub total_supply: u32,
    pub allocated_supply: u32,
    pub start_ts: i64,
    pub end_ts: i64,
    pub timestamp: i64,
}

/// Why the event cannot be closed, if it cannot: the first of the checks
/// that fails.
pub open spec fn refusal(ctx: CloseEvent, rent_exempt_minimum: u64, now: i64) -> Option<
    EventError,
> {
    if ctx.event.authority != ctx.authority {
        Some(EventError::UnauthorizedUpdate)
    } else if !(now >= ctx.event.end_ts) {
        Some(EventError::EventNotEnded)
    } else if !(ctx.escrow_lamports <= rent_exempt_minimum) {
        Some(EventError::OutstandingFunds)
    } else {
        None
    }
}

/// Decides whether an event may be closed and its storage given back: only
/// by its authority, only once it has ended, and only while its escrow holds
/// no more than `rent_exempt_minimum`. `now` is the current time.
pub fn handler(ctx: &CloseEvent, rent_exempt_minimum: u64, now: i64) -> (result: Result<
    EventClosed,
    EventError,
>)
    ensures
        match refusal(*ctx, rent_exempt_minimum, now) {
            Some(error) => result == Err::<EventClosed, EventError>(error),
            None => result == Ok::<EventClosed, EventError>(
                EventClosed {
                    event_pubkey: ctx.event_key,
                    authority: ctx.event.authority,
                    total_supply: ctx.event.total_supply,
                    allocated_supply: ctx.event.allocated_supply,
                    start_ts: ctx.event.start_ts,
                    end_ts: ctx.event.end_ts,
                    timestamp: now,
                },
            ),
        },
{
    if ctx.event.authority != ctx.authority {
        return Err(EventError::UnauthorizedUpdate);
    }
    if !(now >= ctx.event.end_ts) {
        return Err(EventError::EventNotEnded);
    }
    if !(ctx.escrow_lamports <= rent_exempt_minimum) {
        return Err(EventError::OutstandingFunds);
    }
    Ok(
        EventClosed {
            event_pubkey: ctx.event_key,
            authority: ctx.event.authority,
            total_supply: ctx.event.total_supply,
            allocated_supply: ctx.event.allocated_supply,
            start_ts: ctx.event.start_ts,
            end_ts: ctx.event.end_ts,
            timestamp: now,
        },
    )
}

} // verus!
