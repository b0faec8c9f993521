use crate::errors::EventError;
use crate::instructions::withdraw_funds::can_pay;
use crate::pubkey::Pubkey;
use crate::state::{Event, Ticket};
use crate::token::TokenAccount;
use vstd::prelude::*;

verus! {

/// The accounts that take part in refunding a ticket.
pub struct RefundTicket {
    pub ticket: Ticket,
    pub ticket_key: Pubkey,
    pub event: Event,
    pub event_key: Pubkey,
    pub tier_key: Pubkey,
    /// What the escrow of the event holds, in lamports.
    pub escrow_lamports: u64,
    pub mint_key: Pubkey,
    /// The account that holds the ticket's token.
    pub buyer_token_account: TokenAccount,
    /// Who gets the refund; must be the owner of the ticket.
    pub buyer: Pubkey,
    /// Who grants the refund; must be the authority of the event.
    pub authority: Pubkey,
}

/// Audit record of a refund. The ticket's token is burned and
/// `refund_amount` moves from the escrow to the owner.
#[derive(Clone, Copy, Debug)]
pub struct TicketRefunded {
    pub ticket_pubkey: Pubkey,
    pub event_pubkey: Pubkey,
    pub tier_pubkey: Pubkey,
    pub mint_pubkey: Pubkey,
    pub owner: Pubkey,
    pub refund_amount: u64,
    pub refunded_by: Pubkey,
    pub timestamp: i64,
}

/// Why the accounts do not fit together, if they do not.
pub open spec fn account_refusal(ctx: RefundTicket) -> Option<EventError> {
    if ctx.event.authority != ctx.authority {
        Some(EventError::UnauthorizedRefund)
    } else if ctx.event_key != ctx.ticket.event {
        Some(EventError::UnauthorizedRefund)
    } else if ctx.tier_key != ctx.ticket.tier {
        Some(EventError::UnauthorizedRefund)
    } else if ctx.mint_key != ctx.ticket.mint {
        Some(EventError::InvalidMintOwner)
    } else if ctx.buyer_token_account.mint != ctx.ticket.mint {
        Some(EventError::InvalidMintOwner)
    } else if ctx.buyer_token_account.owner != ctx.ticket.owner {
        Some(EventError::InvalidMintOwner)
    } else if ctx.buyer_token_account.amount != 1 {
        Some(EventError::TicketNotOwned)
    } else if ctx.buyer != ctx.ticket.owner {
        Some(EventError::UnauthorizedRefund)
    } else {
        None
    }
}

/// Why the refund is refused, if it is: the first of the checks that fails.
/// A used ticket, a refunded ticket and a ticket of an event that has
/// started are never refunded.
pub open spec fn refusal(
    ctx: RefundTicket,
    refund_amount: u64,
    rent_exempt_minimum: u64,
    now: i64,
) -> Option<EventError> {
    if account_refusal(ctx) is Some {
        account_refusal(ctx)
    } else if ctx.ticket.used {
        Some(EventError::TicketUsedCannotRefund)
    } else if ctx.ticket.refunded {
        Some(EventError::AlreadyRefunded)
    } else if !(now < ctx.event.start_ts) {
        Some(EventError::EventAlreadyStarted)
    } else if !can_pay(ctx.escrow_lamports, rent_exempt_minimum, refund_amount) {
        Some(EventError::InsufficientBalance)
    } else {
        None
    }
}

fn check_accounts(ctx: &RefundTicket) -> (result: Result<(), EventError>)
    ensures
        match account_refusal(*ctx) {
            Some(error) => result == Err::<(), EventError>(error),
            None => result is Ok,
        },
{
    if ctx.event.authority != ctx.authority {
        return Err(EventError::UnauthorizedRefund);
    }
    if ctx.event_key != ctx.ticket.event {
        return Err(EventError::UnauthorizedRefund);
    }
    if ctx.tier_key != ctx.ticket.tier {
        return Err(EventError::UnauthorizedRefund);
    }
    if ctx.mint_key != ctx.ticket.mint {
        return Err(EventError::InvalidMintOwner);
    }
    if ctx.buyer_token_account.mint != ctx.ticket.mint {
        return Err(EventError::InvalidMintOwner);
    }
    if ctx.buyer_token_account.owner != ctx.ticket.owner {
        return Err(EventError::InvalidMintOwner);
    }
    if ctx.buyer_token_account.amount != 1 {
        return Err(EventError::TicketNotOwned);
    }
    if ctx.buyer != ctx.ticket.owner {
        return Err(EventError::UnauthorizedRefund);
    }
    Ok(())
}

/// Refunds a ticket before its event starts. Only the authority of the
/// event grants refunds, and the escrow keeps at least
/// `rent_exempt_minimum`. On success the ticket is marked refunded at `now`,
/// the current time; it stays unused.
pub fn handler(ctx: &mut RefundTicket, refund_amount: u64, rent_exempt_minimum: u64, now: i64) -> (result:
    Result<TicketRefunded, EventError>)
    ensures
        match refusal(*old(ctx), refund_amount, rent_exempt_minimum, now) {
            Some(error) => result == Err::<TicketRefunded, EventError>(error) && *final(ctx)
                == *old(ctx),
            None => {
                &&& result == Ok::<TicketRefunded, EventError>(
                    TicketRefunded {
                        ticket_pubkey: old(ctx).ticket_key,
                        event_pubkey: old(ctx).event_key,
                        tier_pubkey: old(ctx).tier_key,
                        mint_pubkey: old(ctx).ticket.mint,
                        owner: old(ctx).ticket.owner,
                        refund_amount,
                        refunded_by: old(ctx).authority,
                        timestamp: now,
                    },
                )
                &&& *final(ctx) == (RefundTicket {
                    ticket: Ticket { refunded: true, refund_ts: now, ..old(ctx).ticket },
                    ..*old(ctx)
                })
                &&& final(ctx).ticket.well_formed()
            },
        },
        old(ctx).ticket.used || old(ctx).ticket.refunded ==> result is Err,
{
    match check_accounts(ctx) {
        Ok(()) => {},
        Err(error) => { return Err(error); },
    }
    if ctx.ticket.used {
        return Err(EventError::TicketUsedCannotRefund);
    }
    if ctx.ticket.refunded {
        return Err(EventError::AlreadyRefunded);
    }
    if !(now < ctx.event.start_ts) {
        return Err(EventError::EventAlreadyStarted);
    }
    let available_balance = match ctx.escrow_lamports.checked_sub(rent_exempt_minimum) {
        Some(available_balance) => available_balance,
        None => { return Err(EventError::InsufficientBalance); },
    };
    if refund_amount > available_balance {
        return Err(EventError::InsufficientBalance);
    }
    ctx.ticket.refunded = true;
    ctx.ticket.refund_ts = now;
    Ok(
        TicketRefunded {
            ticket_pubkey: ctx.ticket_key,
            event_pubkey: ctx.event_key,
            tier_pubkey: ctx.tier_key,
            mint_pubkey: ctx.ticket.mint,
            owner: ctx.ticket.owner,
            refund_amount,
            refunded_by: ctx.authority,
            timestamp: now,
        },
    )
}

} // verus!
