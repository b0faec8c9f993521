use crate::errors::EventError;
use crate::pubkey::Pubkey;
use crate::state::Event;
use vstd::prelude::*;

verus! {

/// The accounts that take part in paying event funds out to the treasury.
pub struct WithdrawFunds {
    pub event: Event,
    pub event_key: Pubkey,
    /// The escrow of the event and what it holds, in lamports.
    pub escrow_key: Pubkey,
    pub escrow_lamports: u64,
    /// Where the funds go; must be the treasury of the event.
    pub treasury: Pubkey,
    /// Who asks for the withdrawal; must be the authority of the event.
    pub authority: Pubkey,
}

/// Audit record of a withdrawal. `amount` is what moves from the escrow to
/// the treasury.
#[derive(Clone, Copy, Debug)]
pub struct FundsWithdrawn {
    pub event_pubkey: Pubkey,
    pub escrow_pubkey: Pubkey,
    pub treasury: Pubkey,
    pub amount: u64,
    /// What the escrow held before the withdrawal, less twice `amount`, and
    /// zero where that would be negative. This is not what the escrow holds
    /// afterwards, which is `amount` more: the amount is taken off once by
    /// the transfer and once more for this record.
    pub remaining_balance: u64,
    pub withdrawn_by: Pubkey,
    pub timestamp: i64,
}

/// Whether an escrow can pay `amount` and still keep the minimum that keeps
/// its account alive.
pub open spec fn can_pay(escrow_lamports: u64, rent_exempt_minimum: u64, amount: u64) -> bool {
    escrow_lamports >= rent_exempt_minimum && amount <= escrow_lamports - rent_exempt_minimum
}

/// Why the withdrawal is refused, if it is: the first of the checks that
/// fails.
pub open spec fn refusal(ctx: WithdrawFunds, amount: u64, rent_exempt_minimum: u64) -> Option<
    EventError,
> {
    if ctx.event.authority != ctx.authority {
        Some(EventError::UnauthorizedWithdrawal)
    } else if ctx.event.treasury != ctx.treasury {
        Some(EventError::UnauthorizedWithdrawal)
    } else if !can_pay(ctx.escrow_lamports, rent_exempt_minimum, amount) {
        Some(EventError::InsufficientBalance)
    } else {
        None
    }
}

/// The record of a withdrawal of `amount` that was not refused. Its
/// `remaining_balance` is the escrow's balance before the withdrawal less
/// twice the amount, not the balance after it.
pub open spec fn withdrawal(ctx: WithdrawFunds, amount: u64, now: i64) -> FundsWithdrawn {
    FundsWithdrawn {
        event_pubkey: ctx.event_key,
        escrow_pubkey: ctx.escrow_key,
        treasury: ctx.treasury,
        amount,
        remaining_balance: if ctx.escrow_lamports - amount >= amount {
            (ctx.escrow_lamports - amount - amount) as u64
        } else {
            0
        },
        withdrawn_by: ctx.authority,
        timestamp: now,
    }
}

/// Decides a withdrawal of `amount` lamports from the event's escrow to its
/// treasury. The escrow keeps at least `rent_exempt_minimum`. The record
/// reports as remaining what the escrow held less twice the amount. `now` is
/// the current time.
pub fn handler(ctx: &WithdrawFunds, amount: u64, rent_exempt_minimum: u64, now: i64) -> (result:
    Result<FundsWithdrawn, EventError>)
    ensures
        match refusal(*ctx, amount, rent_exempt_minimum) {
            Some(error) => result == Err::<FundsWithdrawn, EventError>(error),
            None => result == Ok::<FundsWithdrawn, EventError>(withdrawal(*ctx, amount, now)),
        },
{
    if ctx.event.authority != ctx.authority {
        return Err(EventError::UnauthorizedWithdrawal);
    }
    if ctx.event.treasury != ctx.treasury {
        return Err(EventError::UnauthorizedWithdrawal);
    }
    let available_balance = match ctx.escrow_lamports.checked_sub(rent_exempt_minimum) {
        Some(available_balance) => available_balance,
        None => { return Err(EventError::InsufficientBalance); },
    };
    if amount > available_balance {
        return Err(EventError::InsufficientBalance);
    }
    let after_transfer: u64 = ctx.escrow_lamports - amount;
    let remaining_balance: u64 = match after_transfer.checked_sub(amount) {
        Some(remaining_balance) => remaining_balance,
        None => 0,
    };
    Ok(
        FundsWithdrawn {
            event_pubkey: ctx.event_key,
            escrow_pubkey: ctx.escrow_key,
            treasury: ctx.treasury,
            amount,
            remaining_balance,
            withdrawn_by: ctx.authority,
            timestamp: now,
        },
    )
}

} // verus!
