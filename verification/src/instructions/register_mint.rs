use crate::errors::EventError;
use crate::pubkey::Pubkey;
use crate::state::{Event, Ticket, TicketTier};
use crate::token::{Mint, TokenAccount};
use vstd::prelude::*;

verus! {

/// The accounts that take part in registering a ticket whose token was
/// minted beforehand.
pub struct RegisterMint {
    /// The record to fill in; its address is `ticket_key`.
    pub ticket: Ticket,
    pub ticket_key: Pubkey,
    pub ticket_bump: u8,
    pub event: Event,
    pub event_key: Pubkey,
    pub tier: TicketTier,
    pub tier_key: Pubkey,
    pub mint: Mint,
    pub mint_key: Pubkey,
    /// The buyer's account for the token.
    pub buyer_token_account: TokenAccount,
    pub buyer: Pubkey,
    /// Who registers the ticket; must be the authority of the event.
    pub authority: Pubkey,
}

/// Audit record of a registered ticket.
#[derive(Clone, Copy, Debug)]
pub struct TicketRegistered {
    pub ticket_pubkey: Pubkey,
    pub event_pubkey: Pubkey,
    pub tier_pubkey: Pubkey,
    pub mint_pubkey: Pubkey,
    pub owner: Pubkey,
    pub timestamp: i64,
}

/// Why the registration is refused, if it is: the first of the checks that
/// fails.
pub open spec fn refusal(ctx: RegisterMint) -> Option<EventError> {
    if ctx.event.authority != ctx.authority {
        Some(EventError::UnauthorizedTierCreation)
    } else if ctx.tier.event != ctx.event_key {
        Some(EventError::UnauthorizedTierCreation)
    } else if ctx.buyer_token_account.mint != ctx.mint_key {
        Some(EventError::InvalidMintOwner)
    } else if ctx.buyer_token_account.owner != ctx.buyer {
        Some(EventError::InvalidMintOwner)
    } else if ctx.buyer_token_account.amount != 1 {
        Some(EventError::InvalidSupply)
    } else if ctx.mint.supply != 1 {
        Some(EventError::InvalidSupply)
    } else if !(ctx.tier.current_supply < ctx.tier.max_supply) {
        Some(EventError::ExceedsTotalSupply)
    } else {
        None
    }
}

/// Registers a ticket for a token that the buyer already holds; no payment
/// moves. On success the tier has one ticket more out and the ticket record
/// is written, unused and not refunded. `now` is the current time.
pub fn handler(ctx: &mut RegisterMint, now: i64) -> (result: Result<TicketRegistered, EventError>)
    ensures
        match refusal(*old(ctx)) {
            Some(error) => result == Err::<TicketRegistered, EventError>(error) && *final(ctx)
                == *old(ctx),
            None => {
                &&& result == Ok::<TicketRegistered, EventError>(
                    TicketRegistered {
                        ticket_pubkey: old(ctx).ticket_key,
                        event_pubkey: old(ctx).event_key,
                        tier_pubkey: old(ctx).tier_key,
                        mint_pubkey: old(ctx).mint_key,
                        owner: old(ctx).buyer,
                        timestamp: now,
                    },
                )
                &&& *final(ctx) == (RegisterMint {
                    ticket: final(ctx).ticket,
                    tier: TicketTier {
                        current_supply: (old(ctx).tier.current_supply + 1) as u32,
                        ..old(ctx).tier
                    },
                    ..*old(ctx)
                })
                &&& final(ctx).ticket.is_fresh(
                    old(ctx).buyer,
                    old(ctx).event_key,
                    old(ctx).tier_key,
                    old(ctx).mint_key,
                    old(ctx).ticket_bump,
                )
                &&& final(ctx).tier.well_formed()
                &&& final(ctx).ticket.well_formed()
            },
        },
{
    if ctx.event.authority != ctx.authority {
        return Err(EventError::UnauthorizedTierCreation);
    }
    if ctx.tier.event != ctx.event_key {
        return Err(EventError::UnauthorizedTierCreation);
    }
    if ctx.buyer_token_account.mint != ctx.mint_key {
        return Err(EventError::InvalidMintOwner);
    }
    if ctx.buyer_token_account.owner != ctx.buyer {
        return Err(EventError::InvalidMintOwner);
    }
    if ctx.buyer_token_account.amount != 1 {
        return Err(EventError::InvalidSupply);
    }
    if ctx.mint.supply != 1 {
        return Err(EventError::InvalidSupply);
    }
    if !ctx.tier.is_available() {
        return Err(EventError::ExceedsTotalSupply);
    }
    let new_supply = match ctx.tier.current_supply.checked_add(1) {
        Some(new_supply) => new_supply,
        None => { return Err(EventError::ExceedsTotalSupply); },
    };
    ctx.tier.current_supply = new_supply;
    ctx.ticket = Ticket {
        owner: ctx.buyer,
        event: ctx.event_key,
        tier: ctx.tier_key,
        mint: ctx.mint_key,
        used: false,
        refunded: false,
        checked_in_ts: 0,
        gate_operator: Pubkey::default(),
        refund_ts: 0,
        bump: ctx.ticket_bump,
    };
    Ok(
        TicketRegistered {
            ticket_pubkey: ctx.ticket_key,
            event_pubkey: ctx.event_key,
            tier_pubkey: ctx.tier_key,
            mint_pubkey: ctx.mint_key,
            owner: ctx.buyer,
            timestamp: now,
        },
    )
}

} // verus!
