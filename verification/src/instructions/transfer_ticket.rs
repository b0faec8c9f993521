use crate::errors::EventError;
use crate::pubkey::Pubkey;
use crate::state::{Ticket, TicketTier};
use crate::token::TokenAccount;
use vstd::prelude::*;

verus! {

/// The accounts that take part in handing a ticket to a new owner.
pub struct TransferTicket {
    pub ticket: Ticket,
    pub ticket_key: Pubkey,
    pub event_key: Pubkey,
    pub tier: TicketTier,
    pub tier_key: Pubkey,
    pub mint_key: Pubkey,
    /// The account that holds the ticket's token now.
    pub sender_token_account: TokenAccount,
    /// The account that will hold it.
    pub recipient_token_account: TokenAccount,
    /// Who hands the ticket over; must be its owner.
    pub sender: Pubkey,
    pub recipient: Pubkey,
    /// Where the royalty goes.
    pub platform_treasury: Pubkey,
}

/// Audit record of a transfer.
#[derive(Clone, Copy, Debug)]
pub struct TicketTransferred {
    pub ticket_pubkey: Pubkey,
    pub event_pubkey: Pubkey,
    pub tier_pubkey: Pubkey,
    pub mint_pubkey: Pubkey,
    pub from_owner: Pubkey,
    pub to_owner: Pubkey,
    pub sale_price: Option<u64>,
    pub royalty_bps: u16,
    pub timestamp: i64,
}

/// The royalty on a resale: `royalty_bps` basis points of the price,
/// rounded down. Nothing where no price is named.
pub open spec fn royalty_of(sale_price: Option<u64>, royalty_bps: u16) -> int {
    match sale_price {
        Some(price) => (price * royalty_bps) / 10_000,
        None => 0,
    }
}

/// The royalty cannot be worked out in 64 bits: the price times the basis
/// points is too large.
pub open spec fn royalty_overflows(sale_price: Option<u64>, royalty_bps: u16) -> bool {
    match sale_price {
        Some(price) => price * royalty_bps > u64::MAX,
        None => false,
    }
}

/// Why the accounts do not fit together, if they do not.
pub open spec fn account_refusal(ctx: TransferTicket) -> Option<EventError> {
    if ctx.ticket.owner != ctx.sender {
        Some(EventError::InvalidOwner)
    } else if ctx.event_key != ctx.ticket.event {
        Some(EventError::UnauthorizedRefund)
    } else if ctx.tier_key != ctx.ticket.tier {
        Some(EventError::UnauthorizedRefund)
    } else if !ctx.tier.resale_enabled {
        Some(EventError::ResaleDisabled)
    } else if ctx.mint_key != ctx.ticket.mint {
        Some(EventError::InvalidMintOwner)
    } else if ctx.sender_token_account.mint != ctx.ticket.mint {
        Some(EventError::InvalidMintOwner)
    } else if ctx.sender_token_account.owner != ctx.sender {
        Some(EventError::InvalidOwner)
    } else if ctx.sender_token_account.amount != 1 {
        Some(EventError::TicketNotOwned)
    } else if ctx.recipient_token_account.mint != ctx.ticket.mint {
        Some(EventError::InvalidMintOwner)
    } else if ctx.recipient_token_account.owner != ctx.recipient {
        Some(EventError::InvalidOwner)
    } else {
        None
    }
}

/// Why the transfer is refused, if it is: the first of the checks that
/// fails. A used or refunded ticket never changes owner.
pub open spec fn refusal(ctx: TransferTicket, sale_price: Option<u64>) -> Option<EventError> {
    if account_refusal(ctx) is Some {
        account_refusal(ctx)
    } else if ctx.ticket.used {
        Some(EventError::TicketAlreadyUsed)
    } else if ctx.ticket.refunded {
        Some(EventError::AlreadyRefunded)
    } else if royalty_overflows(sale_price, ctx.tier.royalty_bps) {
        Some(EventError::ArithmeticOverflow)
    } else {
        None
    }
}

fn check_accounts(ctx: &TransferTicket) -> (result: Result<(), EventError>)
    ensures
        match account_refusal(*ctx) {
            Some(error) => result == Err::<(), EventError>(error),
            None => result is Ok,
        },
{
    if ctx.ticket.owner != ctx.sender {
        return Err(EventError::InvalidOwner);
    }
    if ctx.event_key != ctx.ticket.event {
        return Err(EventError::UnauthorizedRefund);
    }
    if ctx.tier_key != ctx.ticket.tier {
        return Err(EventError::UnauthorizedRefund);
    }
    if !ctx.tier.resale_enabled {
        return Err(EventError::ResaleDisabled);
    }
    if ctx.mint_key != ctx.ticket.mint {
        return Err(EventError::InvalidMintOwner);
    }
    if ctx.sender_token_account.mint != ctx.ticket.mint {
        return Err(EventError::InvalidMintOwner);
    }
    if ctx.sender_token_account.owner != ctx.sender {
        return Err(EventError::InvalidOwner);
    }
    if ctx.sender_token_account.amount != 1 {
        return Err(EventError::TicketNotOwned);
    }
    if ctx.recipient_token_account.mint != ctx.ticket.mint {
        return Err(EventError::InvalidMintOwner);
    }
    if ctx.recipient_token_account.owner != ctx.recipient {
        return Err(EventError::InvalidOwner);
    }
    Ok(())
}

/// Works out the royalty on a resale at `sale_price`, or fails where it
/// does not fit in 64 bits.
pub fn royalty_amount(sale_price: Option<u64>, royalty_bps: u16) -> (result: Result<
    u64,
    EventError,
>)
    ensures
        match result {
            Ok(royalty) => !royalty_overflows(sale_price, royalty_bps) && royalty == royalty_of(
                sale_price,
                royalty_bps,
            ),
            Err(error) => royalty_overflows(sale_price, royalty_bps) && error
                == EventError::ArithmeticOverflow,
        },
{
    match sale_price {
        Some(price) => {
            if royalty_bps > 0 && price > 0 {
                match price.checked_mul(royalty_bps as u64) {
                    Some(product) => Ok(product / 10_000),
                    None => Err(EventError::ArithmeticOverflow),
                }
            } else {
                assert(price * royalty_bps == 0) by (nonlinear_arith)
                    requires
                        price == 0 || royalty_bps == 0,
                ;
                Ok(0)
            }
        },
        None => Ok(0),
    }
}

/// Hands a ticket to `recipient`. The tier must allow resale and the ticket
/// must be neither used nor refunded. The first part of the result is the
/// royalty that moves from the sender to the platform treasury before the
/// token changes hands; the second is the audit record. `now` is the current
/// time.
pub fn handler(ctx: &mut TransferTicket, sale_price: Option<u64>, now: i64) -> (result: Result<
    (u64, TicketTransferred),
    EventError,
>)
    ensures
        match refusal(*old(ctx), sale_price) {
            Some(error) => {
                &&& result == Err::<(u64, TicketTransferred), EventError>(error)
                &&& *final(ctx) == *old(ctx)
            },
            None => {
                &&& result == Ok::<(u64, TicketTransferred), EventError>(
                    (
                        royalty_of(sale_price, old(ctx).tier.royalty_bps) as u64,
                        TicketTransferred {
                            ticket_pubkey: old(ctx).ticket_key,
                            event_pubkey: old(ctx).event_key,
                            tier_pubkey: old(ctx).tier_key,
                            mint_pubkey: old(ctx).ticket.mint,
                            from_owner: old(ctx).ticket.owner,
                            to_owner: old(ctx).recipient,
                            sale_price,
                            royalty_bps: old(ctx).tier.royalty_bps,
                            timestamp: now,
                        },
                    ),
                )
                &&& *final(ctx) == (TransferTicket {
                    ticket: Ticket { owner: old(ctx).recipient, ..old(ctx).ticket },
                    ..*old(ctx)
                })
            },
        },
        old(ctx).ticket.used || old(ctx).ticket.refunded ==> result is Err,
        old(ctx).ticket.well_formed() ==> final(ctx).ticket.well_formed(),
{
    match check_accounts(ctx) {
        Ok(()) => {},
        Err(error) => { return Err(error); },
    }
    if ctx.ticket.used {
        return Err(EventError::TicketAlreadyUsed);
    }
    if ctx.ticket.refunded {
        return Err(EventError::AlreadyRefunded);
    }
    let royalty = match royalty_amount(sale_price, ctx.tier.royalty_bps) {
        Ok(royalty) => royalty,
        Err(error) => { return Err(error); },
    };
    let old_owner = ctx.ticket.owner;
    ctx.ticket.owner = ctx.recipient;
    Ok(
        (
            royalty,
            TicketTransferred {
                ticket_pubkey: ctx.ticket_key,
                event_pubkey: ctx.event_key,
                tier_pubkey: ctx.tier_key,
                mint_pubkey: ctx.ticket.mint,
                from_owner: old_owner,
                to_owner: ctx.ticket.owner,
                sale_price,
                royalty_bps: ctx.tier.royalty_bps,
                timestamp: now,
            },
        ),
    )
}

} // verus!
