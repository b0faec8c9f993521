use crate::errors::EventError;
use crate::pubkey::Pubkey;
use crate::state::{Event, Ticket, TicketTier};
use crate::token::{holds_one, mint_supply, packed_mint_supply, TokenAccount};
use vstd::prelude::*;

verus! {

/// The accounts that take part in buying a ticket.
pub struct PurchaseTicket {
    /// The record to fill in; its address is `ticket_key`.
    pub ticket: Ticket,
    pub ticket_key: Pubkey,
    pub ticket_bump: u8,
    pub event: Event,
    pub event_key: Pubkey,
    pub tier: TicketTier,
    pub tier_key: Pubkey,
    /// Address of the mint of the token that will stand for the ticket.
    pub mint_key: Pubkey,
    /// The stored form of that mint.
    pub mint_data: Vec<u8>,
    /// The buyer's account for that token.
    pub buyer_token_account: TokenAccount,
    pub buyer: Pubkey,
}

/// Audit record of a purchase. `price_paid` is what moves from the buyer to
/// the event's ticket escrow.
#[derive(Clone, Copy, Debug)]
pub struct TicketPurchased {
    pub ticket_pubkey: Pubkey,
    pub event_pubkey: Pubkey,
    pub tier_pubkey: Pubkey,
    pub mint_pubkey: Pubkey,
    pub buyer: Pubkey,
    pub price_paid: u64,
    pub timestamp: i64,
}

/// Why the purchase is refused, if it is: the first of the checks that
/// fails.
pub open spec fn refusal(ctx: PurchaseTicket) -> Option<EventError> {
    if ctx.tier.event != ctx.event_key {
        Some(EventError::UnauthorizedTierCreation)
    } else if !(ctx.tier.current_supply < ctx.tier.max_supply) {
        Some(EventError::ExceedsTotalSupply)
    } else if packed_mint_supply(ctx.mint_data@) != Some(1u64) {
        Some(EventError::InvalidSupply)
    } else if !holds_one(ctx.buyer_token_account, ctx.mint_key, ctx.buyer) {
        Some(EventError::TicketNotOwned)
    } else if ctx.event.ticket_revenue + ctx.tier.price_lamports > u64::MAX {
        Some(EventError::ArithmeticOverflow)
    } else {
        None
    }
}

/// Sells one ticket of the tier to the buyer.
///
/// The tier must have a ticket left, the mint must exist exactly once and
/// the buyer must hold it. On success the tier has one ticket more out, the
/// event's revenue has grown by the price, and the ticket record is written,
/// unused and not refunded. `now` is the current time.
pub fn handler(ctx: &mut PurchaseTicket, now: i64) -> (result: Result<TicketPurchased, EventError>)
    ensures
        match refusal(*old(ctx)) {
            Some(error) => result == Err::<TicketPurchased, EventError>(error) && *final(ctx)
                == *old(ctx),
            None => {
                &&& result == Ok::<TicketPurchased, EventError>(
                    TicketPurchased {
                        ticket_pubkey: old(ctx).ticket_key,
                        event_pubkey: old(ctx).event_key,
                        tier_pubkey: old(ctx).tier_key,
                        mint_pubkey: old(ctx).mint_key,
                        buyer: old(ctx).buyer,
                        price_paid: old(ctx).tier.price_lamports,
                        timestamp: now,
                    },
                )
                &&& *final(ctx) == (PurchaseTicket {
                    ticket: final(ctx).ticket,
                    tier: TicketTier {
                        current_supply: (old(ctx).tier.current_supply + 1) as u32,
                        ..old(ctx).tier
                    },
                    event: Event {
                        ticket_revenue: (old(ctx).event.ticket_revenue + old(
                            ctx,
                        ).tier.price_lamports) as u64,
                        ..old(ctx).event
                    },
                    ..*old(ctx)
                })
                &&& final(ctx).ticket.is_fresh(
                    old(ctx).buyer,
                    old(ctx).event_key,
                    old(ctx).tier_key,
                    old(ctx).mint_key,
                    old(ctx).ticket_bump,
                )
                &&& final(ctx).tier.well_formed()
                &&& final(ctx).ticket.well_formed()
                &&& old(ctx).event.well_formed() ==> final(ctx).event.well_formed()
            },
        },
        final(ctx).event.ticket_revenue >= old(ctx).event.ticket_revenue,
{
    if ctx.tier.event != ctx.event_key {
        return Err(EventError::UnauthorizedTierCreation);
    }
    if !ctx.tier.is_available() {
        return Err(EventError::ExceedsTotalSupply);
    }
    let payment_amount = ctx.tier.price_lamports;
    match mint_supply(ctx.mint_data.as_slice()) {
        Some(supply) => {
            if supply != 1 {
                return Err(EventError::InvalidSupply);
            }
        },
        None => { return Err(EventError::InvalidSupply); },
    }
    if ctx.buyer_token_account.mint != ctx.mint_key || ctx.buyer_token_account.owner != ctx.buyer
        || ctx.buyer_token_account.amount != 1 {
        return Err(EventError::TicketNotOwned);
    }
    let new_supply = match ctx.tier.current_supply.checked_add(1) {
        Some(new_supply) => new_supply,
        None => { return Err(EventError::ExceedsTotalSupply); },
    };
    let new_revenue = match ctx.event.ticket_revenue.checked_add(payment_amount) {
        Some(new_revenue) => new_revenue,
        None => { return Err(EventError::ArithmeticOverflow); },
    };
    ctx.tier.current_supply = new_supply;
    ctx.ticket = Ticket {
        owner: ctx.buyer,
        event: ctx.event_key,
        tier: ctx.tier_key,
        mint: ctx.mint_key,
        used: false,
        refunded: false,
        checked_in_ts: 0,
        gate_operator: Pubkey::default(),
        refund_ts: 0,
        bump: ctx.ticket_bump,
    };
    ctx.event.ticket_revenue = new_revenue;
    Ok(
        TicketPurchased {
            ticket_pubkey: ctx.ticket_key,
            event_pubkey: ctx.event_key,
            tier_pubkey: ctx.tier_key,
            mint_pubkey: ctx.mint_key,
            buyer: ctx.buyer,
            price_paid: payment_amount,
            timestamp: now,
        },
    )
}

} // verus!
