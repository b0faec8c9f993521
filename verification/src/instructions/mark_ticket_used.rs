use crate::errors::EventError;
use crate::pubkey::Pubkey;
use crate::state::Ticket;
use crate::token::TokenAccount;
use vstd::prelude::*;

verus! {

/// The accounts that take part in a check-in by the owner in person.
pub struct MarkTicketUsed {
    pub ticket: Ticket,
    pub ticket_key: Pubkey,
    /// The owner's account for the ticket's token.
    pub owner_token_account: TokenAccount,
    /// Who presents the ticket; must be its owner.
    pub owner: Pubkey,
    /// The scanner that checks the ticket in.
    pub gate_operator: Pubkey,
}

/// Audit record of a check-in.
#[derive(Clone, Copy, Debug)]
pub struct TicketUsed {
    pub ticket_pubkey: Pubkey,
    pub owner: Pubkey,
    pub mint: Pubkey,
    pub event: Pubkey,
    pub tier: Pubkey,
    pub gate_operator: Pubkey,
    pub checked_in_ts: i64,
}

/// Why the check-in is refused, if it is: the first of the checks that
/// fails.
pub open spec fn refusal(ctx: MarkTicketUsed) -> Option<EventError> {
    if ctx.ticket.owner != ctx.owner {
        Some(EventError::UnauthorizedTicketUse)
    } else if ctx.owner_token_account.mint != ctx.ticket.mint {
        Some(EventError::TicketNotOwned)
    } else if ctx.owner_token_account.owner != ctx.owner {
        Some(EventError::TicketNotOwned)
    } else if ctx.owner_token_account.amount != 1 {
        Some(EventError::TicketNotOwned)
    } else if ctx.ticket.used {
        Some(EventError::TicketAlreadyUsed)
    } else if ctx.ticket.refunded {
        Some(EventError::AlreadyRefunded)
    } else {
        None
    }
}

/// Checks a ticket in for its owner, who must hold the ticket's token. A
/// ticket is checked in once: later attempts are refused. A refunded ticket
/// is never checked in. `now` is the
/// current time.
pub fn handler(ctx: &mut MarkTicketUsed, now: i64) -> (result: Result<TicketUsed, EventError>)
    ensures
        match refusal(*old(ctx)) {
            Some(error) => result == Err::<TicketUsed, EventError>(error) && *final(ctx) == *old(
                ctx,
            ),
            None => {
                &&& result == Ok::<TicketUsed, EventError>(
                    TicketUsed {
                        ticket_pubkey: old(ctx).ticket_key,
                        owner: old(ctx).ticket.owner,
                        mint: old(ctx).ticket.mint,
                        event: old(ctx).ticket.event,
                        tier: old(ctx).ticket.tier,
                        gate_operator: old(ctx).gate_operator,
                        checked_in_ts: now,
                    },
                )
                &&& *final(ctx) == (MarkTicketUsed {
                    ticket: Ticket {
                        used: true,
                        checked_in_ts: now,
                        gate_operator: old(ctx).gate_operator,
                        ..old(ctx).ticket
                    },
                    ..*old(ctx)
                })
            },
        },
        old(ctx).ticket.used ==> result is Err,
        old(ctx).ticket.refunded ==> result is Err,
        old(ctx).ticket.well_formed() ==> final(ctx).ticket.well_formed(),
{
    if ctx.ticket.owner != ctx.owner {
        return Err(EventError::UnauthorizedTicketUse);
    }
    if ctx.owner_token_account.mint != ctx.ticket.mint {
        return Err(EventError::TicketNotOwned);
    }
    if ctx.owner_token_account.owner != ctx.owner {
        return Err(EventError::TicketNotOwned);
    }
    if ctx.owner_token_account.amount != 1 {
        return Err(EventError::TicketNotOwned);
    }
    if ctx.ticket.used {
        return Err(EventError::TicketAlreadyUsed);
    }
    if ctx.ticket.refunded {
        return Err(EventError::AlreadyRefunded);
    }
    ctx.ticket.used = true;
    ctx.ticket.checked_in_ts = now;
    ctx.ticket.gate_operator = ctx.gate_operator;
    Ok(
        TicketUsed {
            ticket_pubkey: ctx.ticket_key,
            owner: ctx.ticket.owner,
            mint: ctx.ticket.mint,
            event: ctx.ticket.event,
            tier: ctx.ticket.tier,
            gate_operator: ctx.ticket.gate_operator,
            checked_in_ts: now,
        },
    )
}

} // verus!
